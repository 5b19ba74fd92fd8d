//! The catalog browser popup: tabs, selections, caches, the pending
//! free-text query, and status text.

use vstd::prelude::*;
use vstd::arithmetic::div_mod::lemma_fundamental_div_mod_converse;
use crate::catalog::{
    collection_texts, copy_collections, copy_strings, fuzzy_filter_collections,
    fuzzy_filter_icons, is_filtered, IconifyCollectionListItem,
};
use crate::debounce::{armed, idle, DebounceView, SEARCH_DEBOUNCE_MS};
use crate::ranker::texts;
use crate::text::{is_blank, text_is_blank, trim_text, trimmed};

verus! {

/// The two tabs of the popup.
#[derive(Debug, Clone, Copy, PartialEq, Eq, Structural)]
pub enum IconifySearchTab {
    Collections,
    Icons,
}

/// The view of an optional string.
pub open spec fn opt_text(o: Option<String>) -> Option<Seq<char>> {
    match o {
        Some(s) => Some(s@),
        None => None,
    }
}

/// Whether a selection index is valid for a list of length `len`: inside
/// it, or zero when it is empty.
pub open spec fn index_fits(index: usize, len: nat) -> bool {
    if len == 0 {
        index == 0
    } else {
        index < len
    }
}

/// `index` brought back into a list of length `len`.
pub open spec fn clamped(index: usize, len: nat) -> usize {
    if len == 0 {
        0
    } else if index >= len {
        (len - 1) as usize
    } else {
        index
    }
}

/// Everything the popup holds while it is open.
#[derive(Debug)]
pub struct IconifySearchPopupState {
    pub search_value: String,
    pub active_tab: IconifySearchTab,
    pub selected_collection_index: usize,
    pub selected_icon_index: usize,
    pub all_collections: Vec<IconifyCollectionListItem>,
    pub filtered_collections: Vec<IconifyCollectionListItem>,
    pub search_icons: Vec<String>,
    pub collection_icons: Vec<String>,
    pub collection_icons_prefix: Option<String>,
    pub visible_icons: Vec<String>,
    pub selected_collection_filter: Option<String>,
    pub pending_search_query: Option<String>,
    /// When the pending query is due, in milliseconds of the caller's clock.
    pub debounce_deadline: Option<u64>,
    pub latest_collections_request_id: u64,
    pub latest_search_request_id: u64,
    pub latest_collection_icons_request_id: u64,
    pub is_loading_collections: bool,
    pub is_loading_search: bool,
    pub is_loading_collection_icons: bool,
    pub status_message: Option<String>,
    pub status_is_error: bool,
}

impl IconifySearchPopupState {
    /// The collection list on show: all of them for a blank query, else the
    /// ranked ones.
    pub open spec fn shown_collections(&self) -> Seq<IconifyCollectionListItem> {
        if is_blank(self.search_value@) {
            self.all_collections@
        } else {
            self.filtered_collections@
        }
    }

    /// The ranked collections follow the query.
    pub open spec fn filtered_follows_query(&self) -> bool {
        if is_blank(self.search_value@) {
            self.filtered_collections@.len() == 0
        } else {
            is_filtered(
                trimmed(self.search_value@),
                collection_texts(self.all_collections@),
                self.all_collections@,
                self.filtered_collections@,
            )
        }
    }

    /// Whether `v` is the icon list to show: the cached icons of the chosen
    /// collection ranked locally against the query, nothing while they are
    /// not cached, or the free-text results when no collection is chosen.
    pub open spec fn icons_to_show(&self, v: Seq<String>) -> bool {
        match self.selected_collection_filter {
            Some(p) => if opt_text(self.collection_icons_prefix) == Some(p@) {
                if is_blank(self.search_value@) {
                    v == self.collection_icons@
                } else {
                    is_filtered(
                        trimmed(self.search_value@),
                        texts(self.collection_icons@),
                        self.collection_icons@,
                        v,
                    )
                }
            } else {
                v.len() == 0
            },
            None => v == self.search_icons@,
        }
    }

    /// The lists on show follow the data and the query, and both selections
    /// fit their lists.
    pub open spec fn wf(&self) -> bool {
        &&& self.filtered_follows_query()
        &&& self.icons_to_show(self.visible_icons@)
        &&& index_fits(self.selected_collection_index, self.shown_collections().len())
        &&& index_fits(self.selected_icon_index, self.visible_icons@.len())
    }

    /// The pending query and its deadline.
    pub open spec fn debounce_view(&self) -> DebounceView {
        DebounceView {
            pending: opt_text(self.pending_search_query),
            deadline: self.debounce_deadline,
        }
    }

    /// Whether typing here asks the remote index: the Icons tab with no
    /// collection chosen.
    pub open spec fn searches_remotely(&self) -> bool {
        self.active_tab == IconifySearchTab::Icons && self.selected_collection_filter is None
    }

    /// A popup as it opens: nothing loaded, nothing chosen, nothing typed.
    pub open spec fn is_fresh(&self) -> bool {
        &&& self.search_value@.len() == 0
        &&& self.active_tab == IconifySearchTab::Collections
        &&& self.selected_collection_index == 0
        &&& self.selected_icon_index == 0
        &&& self.all_collections@.len() == 0
        &&& self.filtered_collections@.len() == 0
        &&& self.search_icons@.len() == 0
        &&& self.collection_icons@.len() == 0
        &&& self.collection_icons_prefix is None
        &&& self.visible_icons@.len() == 0
        &&& self.selected_collection_filter is None
        &&& self.pending_search_query is None
        &&& self.debounce_deadline is None
        &&& self.latest_collections_request_id == 0
        &&& self.latest_search_request_id == 0
        &&& self.latest_collection_icons_request_id == 0
        &&& !self.is_loading_collections
        &&& !self.is_loading_search
        &&& !self.is_loading_collection_icons
        &&& self.status_message is None
        &&& !self.status_is_error
    }

    /// A popup as it opens.
    pub fn new() -> (r: Self)
        ensures
            r.is_fresh(),
            r.wf(),
    {
        let r = IconifySearchPopupState {
            search_value: String::new(),
            active_tab: IconifySearchTab::Collections,
            selected_collection_index: 0,
            selected_icon_index: 0,
            all_collections: Vec::new(),
            filtered_collections: Vec::new(),
            search_icons: Vec::new(),
            collection_icons: Vec::new(),
            collection_icons_prefix: None,
            visible_icons: Vec::new(),
            selected_collection_filter: None,
            pending_search_query: None,
            debounce_deadline: None,
            latest_collections_request_id: 0,
            latest_search_request_id: 0,
            latest_collection_icons_request_id: 0,
            is_loading_collections: false,
            is_loading_search: false,
            is_loading_collection_icons: false,
            status_message: None,
            status_is_error: false,
        };
        proof {
            crate::text::lemma_blank_iff_all_white(r.search_value@);
        }
        r
    }

    /// The collection list on show.
    pub fn active_collections(&self) -> (r: &Vec<IconifyCollectionListItem>)
        ensures
            r@ == self.shown_collections(),
    {
        if text_is_blank(self.search_value.as_str()) {
            &self.all_collections
        } else {
            &self.filtered_collections
        }
    }

    /// Ranks the collections against the current query.
    pub fn refresh_filtered_collections(&mut self)
        ensures
            final(self).filtered_follows_query(),
            *final(self) == (IconifySearchPopupState {
                filtered_collections: final(self).filtered_collections,
                ..*old(self)
            }),
    {
        let query = trim_text(self.search_value.as_str());
        if text_is_blank(self.search_value.as_str()) {
            self.filtered_collections = Vec::new();
            return;
        }
        self.filtered_collections = fuzzy_filter_collections(&self.all_collections, query.as_str());
    }

    /// Sets the status line.
    pub fn set_status(&mut self, message: String, is_error: bool)
        ensures
            *final(self) == (IconifySearchPopupState {
                status_message: Some(message),
                status_is_error: is_error,
                ..*old(self)
            }),
    {
        self.status_message = Some(message);
        self.status_is_error = is_error;
    }

    /// Clears the status line.
    pub fn clear_status(&mut self)
        ensures
            *final(self) == (IconifySearchPopupState {
                status_message: None,
                status_is_error: false,
                ..*old(self)
            }),
    {
        self.status_message = None;
        self.status_is_error = false;
    }

    /// Brings the collection selection back into the list on show.
    pub fn clamp_collection_selection(&mut self)
        ensures
            *final(self) == (IconifySearchPopupState {
                selected_collection_index: clamped(
                    old(self).selected_collection_index,
                    old(self).shown_collections().len(),
                ),
                ..*old(self)
            }),
    {
        let len = self.active_collections().len();
        if len == 0 {
            self.selected_collection_index = 0;
        } else if self.selected_collection_index >= len {
            self.selected_collection_index = len - 1;
        }
    }

    /// Brings the icon selection back into the list on show.
    pub fn clamp_icon_selection(&mut self)
        ensures
            *final(self) == (IconifySearchPopupState {
                selected_icon_index: clamped(
                    old(self).selected_icon_index,
                    old(self).visible_icons@.len(),
                ),
                ..*old(self)
            }),
    {
        let len = self.visible_icons.len();
        if len == 0 {
            self.selected_icon_index = 0;
        } else if self.selected_icon_index >= len {
            self.selected_icon_index = len - 1;
        }
    }

    /// Recomputes the icon list on show and clamps its selection.
    pub fn refresh_visible_icons(&mut self)
        ensures
            final(self).icons_to_show(final(self).visible_icons@),
            index_fits(final(self).selected_icon_index, final(self).visible_icons@.len()),
            final(self).selected_icon_index == clamped(
                old(self).selected_icon_index,
                final(self).visible_icons@.len(),
            ),
            *final(self) == (IconifySearchPopupState {
                visible_icons: final(self).visible_icons,
                selected_icon_index: final(self).selected_icon_index,
                ..*old(self)
            }),
    {
        match &self.selected_collection_filter {
            Some(prefix) => {
                let cached = match &self.collection_icons_prefix {
                    Some(c) => *c == *prefix,
                    None => false,
                };
                if !cached {
                    self.visible_icons = Vec::new();
                } else if text_is_blank(self.search_value.as_str()) {
                    self.visible_icons = copy_strings(&self.collection_icons);
                } else {
                    let query = trim_text(self.search_value.as_str());
                    self.visible_icons = fuzzy_filter_icons(&self.collection_icons, query.as_str());
                }
            },
            None => {
                self.visible_icons = copy_strings(&self.search_icons);
            },
        }
        self.clamp_icon_selection();
    }

    /// Arms the debounce for the current query where typing asks the remote
    /// index, and drops any pending query otherwise.
    pub fn sync_search_dispatch_state(&mut self, now: u64)
        ensures
            final(self).debounce_view() == (if old(self).searches_remotely() {
                armed(old(self).search_value@, now)
            } else {
                idle()
            }),
            final(self).is_loading_search == (old(self).searches_remotely() && !is_blank(
                old(self).search_value@,
            )),
            *final(self) == (IconifySearchPopupState {
                pending_search_query: final(self).pending_search_query,
                debounce_deadline: final(self).debounce_deadline,
                is_loading_search: final(self).is_loading_search,
                ..*old(self)
            }),
    {
        self.pending_search_query = None;
        self.debounce_deadline = None;
        let query = trim_text(self.search_value.as_str());
        if text_is_blank(self.search_value.as_str()) || self.active_tab != IconifySearchTab::Icons
            || self.selected_collection_filter.is_some() {
            self.is_loading_search = false;
            return;
        }
        self.pending_search_query = Some(query);
        self.debounce_deadline = Some(now.saturating_add(SEARCH_DEBOUNCE_MS));
        self.is_loading_search = true;
    }

    /// The prefix of the highlighted collection.
    pub fn selected_collection_prefix(&self) -> (r: Option<String>)
        ensures
            r == (if self.selected_collection_index < self.shown_collections().len() {
                Some(self.shown_collections()[self.selected_collection_index as int].prefix)
            } else {
                None
            }),
    {
        let list = self.active_collections();
        if self.selected_collection_index < list.len() {
            Some(list[self.selected_collection_index].prefix.clone())
        } else {
            None
        }
    }

    /// The name of the highlighted icon.
    pub fn selected_icon_name(&self) -> (r: Option<String>)
        ensures
            r == (if self.selected_icon_index < self.visible_icons@.len() {
                Some(self.visible_icons@[self.selected_icon_index as int])
            } else {
                None
            }),
    {
        if self.selected_icon_index < self.visible_icons.len() {
            Some(self.visible_icons[self.selected_icon_index].clone())
        } else {
            None
        }
    }
}


impl IconifySearchPopupState {
    /// Takes `value` as the new query: clears the status, resets both
    /// selections, drops the free-text results, re-ranks the lists on show
    /// and re-arms the debounce where typing asks the remote index.
    pub fn update_search_value(&mut self, value: String, now: u64)
        requires
            old(self).wf(),
        ensures
            final(self).wf(),
            final(self).search_value == value,
            final(self).selected_collection_index == 0,
            final(self).search_icons@.len() == 0,
            final(self).debounce_view() == (if old(self).searches_remotely() {
                armed(value@, now)
            } else {
                idle()
            }),
            final(self).is_loading_search == (old(self).searches_remotely() && !is_blank(value@)),
            *final(self) == (IconifySearchPopupState {
                search_value: value,
                selected_collection_index: 0,
                selected_icon_index: final(self).selected_icon_index,
                filtered_collections: final(self).filtered_collections,
                search_icons: final(self).search_icons,
                visible_icons: final(self).visible_icons,
                pending_search_query: final(self).pending_search_query,
                debounce_deadline: final(self).debounce_deadline,
                is_loading_search: final(self).is_loading_search,
                status_message: None,
                status_is_error: false,
                ..*old(self)
            }),
    {
        self.search_value = value;
        self.clear_status();
        self.selected_collection_index = 0;
        self.selected_icon_index = 0;
        self.refresh_filtered_collections();
        self.search_icons = Vec::new();
        self.refresh_visible_icons();
        self.sync_search_dispatch_state(now);
    }

    /// Empties the query, the ranked collections and the free-text results,
    /// drops any pending query and clears the status.
    pub fn clear_search_input(&mut self, now: u64)
        ensures
            final(self).wf(),
            final(self).search_value@.len() == 0,
            final(self).filtered_collections@.len() == 0,
            final(self).search_icons@.len() == 0,
            final(self).selected_icon_index == 0,
            final(self).selected_collection_index == clamped(
                old(self).selected_collection_index,
                old(self).all_collections@.len(),
            ),
            final(self).debounce_view() == idle(),
            *final(self) == (IconifySearchPopupState {
                search_value: final(self).search_value,
                selected_collection_index: final(self).selected_collection_index,
                selected_icon_index: 0,
                filtered_collections: final(self).filtered_collections,
                search_icons: final(self).search_icons,
                visible_icons: final(self).visible_icons,
                pending_search_query: None,
                debounce_deadline: None,
                is_loading_search: false,
                status_message: None,
                status_is_error: false,
                ..*old(self)
            }),
    {
        self.search_value = String::new();
        self.filtered_collections = Vec::new();
        self.search_icons = Vec::new();
        self.selected_icon_index = 0;
        proof {
            crate::text::lemma_blank_iff_all_white(self.search_value@);
        }
        self.sync_search_dispatch_state(now);
        self.clear_status();
        self.clamp_collection_selection();
        self.refresh_visible_icons();
    }

    /// Moves the collection selection one step, wrapping at either end.
    pub fn move_collection_selection(&mut self, forward: bool)
        requires
            old(self).wf(),
        ensures
            final(self).wf(),
            *final(self) == (IconifySearchPopupState {
                selected_collection_index: final(self).selected_collection_index,
                ..*old(self)
            }),
            final(self).selected_collection_index == stepped(
                old(self).selected_collection_index,
                old(self).shown_collections().len(),
                forward,
            ),
    {
        let len = self.active_collections().len();
        self.selected_collection_index = step_index(self.selected_collection_index, len, forward);
    }

    /// Moves the icon selection one step, wrapping at either end.
    pub fn move_icon_selection(&mut self, forward: bool)
        requires
            old(self).wf(),
        ensures
            final(self).wf(),
            *final(self) == (IconifySearchPopupState {
                selected_icon_index: final(self).selected_icon_index,
                ..*old(self)
            }),
            final(self).selected_icon_index == stepped(
                old(self).selected_icon_index,
                old(self).visible_icons@.len(),
                forward,
            ),
    {
        let len = self.visible_icons.len();
        self.selected_icon_index = step_index(self.selected_icon_index, len, forward);
    }
}

/// `index` moved one step forward or back in a list of length `len`,
/// wrapping at either end; zero in an empty list.
pub open spec fn stepped(index: usize, len: nat, forward: bool) -> usize {
    if len == 0 {
        0
    } else if forward {
        ((index as int + 1) % (len as int)) as usize
    } else {
        ((index as int + len - 1) % (len as int)) as usize
    }
}

/// `index` moved one step in a list of length `len`.
fn step_index(index: usize, len: usize, forward: bool) -> (r: usize)
    requires
        index_fits(index, len as nat),
    ensures
        r == stepped(index, len as nat, forward),
        index_fits(r, len as nat),
{
    if len == 0 {
        return 0;
    }
    let r: usize = if forward {
        if index + 1 >= len {
            0
        } else {
            index + 1
        }
    } else if index == 0 {
        len - 1
    } else {
        index - 1
    };
    proof {
        let m = len as int;
        if forward {
            let x = index as int + 1;
            if index + 1 >= len {
                lemma_fundamental_div_mod_converse(x, m, 1, 0);
            } else {
                lemma_fundamental_div_mod_converse(x, m, 0, x);
            }
        } else {
            let x = index as int + m - 1;
            if index == 0 {
                lemma_fundamental_div_mod_converse(x, m, 0, x);
            } else {
                lemma_fundamental_div_mod_converse(x, m, 1, index as int - 1);
            }
        }
    }
    r
}

} // verus!
