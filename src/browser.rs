//! The browser popup driven from the application: request ids, key
//! handling, the per-frame debounce tick, and completions of background
//! requests.
//!
//! Nothing here waits on the network. Each step returns the command it wants
//! carried out, and the caller later hands back the completion tagged with
//! the request id that the command carried.

use vstd::prelude::*;
use vstd::string::*;
use crate::app_state::{App, AppFocus};
use crate::catalog::IconifyCollectionListItem;
use crate::debounce::{after_frame, fires, idle, sent_at_frame};
use crate::links::icones_collection_url;
use crate::popup::{clamped, opt_text, IconifySearchPopupState, IconifySearchTab};
use crate::text::{is_blank, pop_char, push_char, text_is_blank, trim_text, trimmed};

verus! {

/// What the popup asks its caller to carry out.
#[derive(Debug)]
pub enum PopupCommand {
    /// Fetch the catalog's collections.
    FetchCollections { request_id: u64 },
    /// Run a free-text search for `query`.
    Search { request_id: u64, query: String },
    /// Fetch the icon list of the collection `prefix`.
    FetchCollectionIcons { request_id: u64, prefix: String },
    /// Hand the chosen icon to the add flow; the popup has closed.
    StageIconForAdd { icon_name: String },
    /// Open `url` in a web browser.
    OpenInBrowser { url: String },
}

/// A key press in the popup, as far as the popup tells keys apart.
#[derive(Debug, Clone, Copy, PartialEq, Eq, Structural)]
pub enum PopupKey {
    Esc,
    Tab,
    Up,
    Down,
    Enter,
    /// The shortcut that opens the highlighted icon in a browser.
    OpenInBrowser,
    /// A character typed into the search box.
    Char(char),
    Backspace,
}

/// The result of a free-text search.
#[derive(Debug, Clone)]
pub struct IconifySearchPayload {
    pub icons: Vec<String>,
}

/// The completion of a background request, tagged with its id.
#[derive(Debug)]
pub enum AppEvent {
    IconifyCollectionsLoaded {
        request_id: u64,
        result: Result<Vec<IconifyCollectionListItem>, String>,
    },
    IconifySearchLoaded {
        request_id: u64,
        query: String,
        result: Result<IconifySearchPayload, String>,
    },
    IconifyCollectionIconsLoaded {
        request_id: u64,
        prefix: String,
        result: Result<Vec<String>, String>,
    },
}

/// The id handed out after `n`: one more, held at `u64::MAX`.
pub open spec fn id_after(n: u64) -> u64 {
    if n < u64::MAX {
        (n + 1) as u64
    } else {
        u64::MAX
    }
}

/// `a` with its popup replaced by `s`.
pub open spec fn with_popup(a: App, s: IconifySearchPopupState) -> App {
    App { iconify_search_popup_state: Some(s), ..a }
}

/// The popup of `a`; meaningful only while one is open.
pub open spec fn popup_of(a: App) -> IconifySearchPopupState {
    a.iconify_search_popup_state->0
}

/// The open popup, if any, is well formed.
pub open spec fn popup_wf(a: App) -> bool {
    a.iconify_search_popup_state is Some ==> popup_of(a).wf()
}

/// Status text while the collections load.
pub open spec fn loading_collections_text() -> Seq<char> {
    "Loading collections..."@
}

/// Status text while one collection's icons load.
pub open spec fn loading_icons_text(prefix: Seq<char>) -> Seq<char> {
    "Loading icons for collection '"@ + prefix + "'..."@
}

/// `b` is `a` with a freshly opened popup that has asked for the collections.
pub open spec fn opened(a: App, b: App, cmd: PopupCommand) -> bool {
    let id = id_after(a.next_async_request_id);
    let s = popup_of(b);
    &&& b.iconify_search_popup_state is Some
    &&& b == (App {
        app_focus: AppFocus::IconifySearchPopup,
        iconify_search_popup_state: b.iconify_search_popup_state,
        next_async_request_id: id,
        ..a
    })
    &&& s.wf()
    &&& s == (IconifySearchPopupState {
        latest_collections_request_id: id,
        is_loading_collections: true,
        status_message: s.status_message,
        status_is_error: false,
        ..s
    })
    &&& (IconifySearchPopupState {
        latest_collections_request_id: 0,
        is_loading_collections: false,
        status_message: None,
        ..s
    }).is_fresh()
    &&& opt_text(s.status_message) == Some(loading_collections_text())
    &&& cmd == PopupCommand::FetchCollections { request_id: id }
}

/// `b` is `a` with the popup closed.
pub open spec fn closed(a: App, b: App) -> bool {
    b == (App { app_focus: AppFocus::Main, iconify_search_popup_state: None, ..a })
}

/// The Tab key: from Collections to Icons the query stays and is re-armed
/// for a remote search where no collection is chosen; from Icons back to
/// Collections the chosen collection, the query and any pending search go.
pub open spec fn tab_switched(a: App, b: App, now: u64) -> bool {
    let s = popup_of(a);
    let t = popup_of(b);
    if a.iconify_search_popup_state is None {
        b == a
    } else {
        &&& b.iconify_search_popup_state is Some
        &&& b == with_popup(a, t)
        &&& t.wf()
        &&& match s.active_tab {
            IconifySearchTab::Collections => {
                &&& t == (IconifySearchPopupState {
                    active_tab: IconifySearchTab::Icons,
                    pending_search_query: t.pending_search_query,
                    debounce_deadline: t.debounce_deadline,
                    is_loading_search: t.is_loading_search,
                    ..s
                })
                &&& t.debounce_view() == (if s.selected_collection_filter is None {
                    crate::debounce::armed(s.search_value@, now)
                } else {
                    idle()
                })
                &&& t.is_loading_search == (s.selected_collection_filter is None && !is_blank(
                    s.search_value@,
                ))
            },
            IconifySearchTab::Icons => {
                &&& t == (IconifySearchPopupState {
                    search_value: t.search_value,
                    active_tab: IconifySearchTab::Collections,
                    selected_collection_index: clamped(
                        s.selected_collection_index,
                        s.all_collections@.len(),
                    ),
                    selected_icon_index: 0,
                    filtered_collections: t.filtered_collections,
                    search_icons: t.search_icons,
                    visible_icons: t.visible_icons,
                    selected_collection_filter: None,
                    pending_search_query: None,
                    debounce_deadline: None,
                    is_loading_search: false,
                    is_loading_collection_icons: false,
                    status_message: None,
                    status_is_error: false,
                    ..s
                })
                &&& t.search_value@.len() == 0
                &&& t.filtered_collections@.len() == 0
                &&& t.search_icons@.len() == 0
                &&& t.visible_icons@.len() == 0
            },
        }
    }
}

/// The search box now holds `value`.
pub open spec fn edited(a: App, b: App, value: Seq<char>, now: u64) -> bool {
    let s = popup_of(a);
    let t = popup_of(b);
    &&& b.iconify_search_popup_state is Some
    &&& b == with_popup(a, t)
    &&& t.wf()
    &&& t.search_value@ == value
    &&& t.search_icons@.len() == 0
    &&& t.debounce_view() == (if s.searches_remotely() {
        crate::debounce::armed(value, now)
    } else {
        idle()
    })
    &&& t.is_loading_search == (s.searches_remotely() && !is_blank(value))
    &&& t == (IconifySearchPopupState {
        search_value: t.search_value,
        selected_collection_index: 0,
        selected_icon_index: t.selected_icon_index,
        filtered_collections: t.filtered_collections,
        search_icons: t.search_icons,
        visible_icons: t.visible_icons,
        pending_search_query: t.pending_search_query,
        debounce_deadline: t.debounce_deadline,
        is_loading_search: t.is_loading_search,
        status_message: None,
        status_is_error: false,
        ..s
    })
}

/// Whether the collection `prefix` already has its icons cached.
pub open spec fn is_cached(s: IconifySearchPopupState, prefix: Seq<char>) -> bool {
    opt_text(s.collection_icons_prefix) == Some(prefix)
}

/// `b` is `a` with the collection `prefix` chosen as the filter on the Icons
/// tab and the first icon highlighted; its icons are fetched, under a new
/// id, only where not cached yet, and the cache is emptied until they land.
pub open spec fn collection_opened(
    a: App,
    prefix: String,
    now: u64,
    b: App,
    cmd: Option<PopupCommand>,
) -> bool {
    let s = popup_of(a);
    let t = popup_of(b);
    let fetch = !is_cached(s, prefix@);
    let id = id_after(a.next_async_request_id);
    &&& b.iconify_search_popup_state is Some
    &&& b == (App {
        iconify_search_popup_state: b.iconify_search_popup_state,
        next_async_request_id: b.next_async_request_id,
        ..a
    })
    &&& t.wf()
    &&& t.active_tab == IconifySearchTab::Icons
    &&& t.selected_collection_filter == Some(prefix)
    &&& t.debounce_view() == idle()
    &&& !t.is_loading_search
    &&& t.search_value == s.search_value
    &&& t.all_collections == s.all_collections
    &&& t.filtered_collections == s.filtered_collections
    &&& t.selected_collection_index == s.selected_collection_index
    &&& t.selected_icon_index == 0
    &&& t.latest_collections_request_id == s.latest_collections_request_id
    &&& t.latest_search_request_id == s.latest_search_request_id
    &&& if fetch {
        &&& b.next_async_request_id == id
        &&& t.collection_icons@.len() == 0
        &&& t.collection_icons_prefix is None
        &&& t.latest_collection_icons_request_id == id
        &&& t.is_loading_collection_icons
        &&& opt_text(t.status_message) == Some(loading_icons_text(prefix@))
        &&& !t.status_is_error
        &&& cmd == Some(PopupCommand::FetchCollectionIcons { request_id: id, prefix })
    } else {
        &&& b.next_async_request_id == a.next_async_request_id
        &&& t.collection_icons_prefix == s.collection_icons_prefix
        &&& t.collection_icons == s.collection_icons
        &&& t.latest_collection_icons_request_id == s.latest_collection_icons_request_id
        &&& t.is_loading_collection_icons == s.is_loading_collection_icons
        &&& t.status_message == s.status_message
        &&& t.status_is_error == s.status_is_error
        &&& cmd is None
    }
}

/// A frame at `now`: once the pending query is due, it is sent under a new
/// id where typing asks the remote index, and discarded unsent where the tab
/// or a chosen collection no longer calls for a remote search; before it is
/// due nothing changes.
pub open spec fn ticked(a: App, now: u64, b: App, cmd: Option<PopupCommand>) -> bool {
    let s = popup_of(a);
    let t = popup_of(b);
    if a.iconify_search_popup_state is None || !fires(s.debounce_view(), now) {
        b == a && cmd is None
    } else if !s.searches_remotely() {
        &&& b == with_popup(
            a,
            IconifySearchPopupState {
                pending_search_query: None,
                debounce_deadline: None,
                is_loading_search: false,
                ..s
            },
        )
        &&& popup_of(b).debounce_view() == idle()
        &&& cmd is None
    } else {
        let id = id_after(a.next_async_request_id);
        &&& b.iconify_search_popup_state is Some
        &&& b == (App {
            iconify_search_popup_state: b.iconify_search_popup_state,
            next_async_request_id: id,
            ..a
        })
        &&& t == (IconifySearchPopupState {
            pending_search_query: None,
            debounce_deadline: None,
            latest_search_request_id: id,
            is_loading_search: true,
            ..s
        })
        &&& t.debounce_view() == after_frame(s.debounce_view(), now)
        &&& cmd is Some
        &&& match cmd->0 {
            PopupCommand::Search { request_id, query } => {
                &&& request_id == id
                &&& sent_at_frame(s.debounce_view(), now) == seq![query@]
            },
            _ => false,
        }
    }
}

impl App {
    /// Hands out the next request id.
    pub fn next_request_id(&mut self) -> (r: u64)
        ensures
            r == id_after(old(self).next_async_request_id),
            *final(self) == (App { next_async_request_id: r, ..*old(self) }),
    {
        self.next_async_request_id = self.next_async_request_id.saturating_add(1);
        self.next_async_request_id
    }

    /// Opens the browser popup afresh and asks for the collections.
    pub fn init_iconify_search_popup(&mut self) -> (cmd: PopupCommand)
        ensures
            opened(*old(self), *final(self), cmd),
            popup_wf(*final(self)),
    {
        self.app_focus = AppFocus::IconifySearchPopup;
        self.iconify_search_popup_state = Some(IconifySearchPopupState::new());
        match self.request_iconify_collections() {
            Some(cmd) => cmd,
            None => PopupCommand::FetchCollections { request_id: self.next_async_request_id },
        }
    }

    /// Asks for the collections under a new id, marking the popup as loading.
    fn request_iconify_collections(&mut self) -> (cmd: Option<PopupCommand>)
        requires
            old(self).iconify_search_popup_state is Some,
        ensures
            ({
                let id = id_after(old(self).next_async_request_id);
                let t = popup_of(*final(self));
                &&& final(self).iconify_search_popup_state is Some
                &&& *final(self) == (App {
                    iconify_search_popup_state: final(self).iconify_search_popup_state,
                    next_async_request_id: id,
                    ..*old(self)
                })
                &&& t == (IconifySearchPopupState {
                    latest_collections_request_id: id,
                    is_loading_collections: true,
                    status_message: t.status_message,
                    status_is_error: false,
                    ..popup_of(*old(self))
                })
                &&& opt_text(t.status_message) == Some(loading_collections_text())
                &&& cmd == Some(PopupCommand::FetchCollections { request_id: id })
            }),
    {
        let request_id = self.next_request_id();
        match &mut self.iconify_search_popup_state {
            Some(state) => {
                state.latest_collections_request_id = request_id;
                state.is_loading_collections = true;
                state.set_status(String::from_str("Loading collections..."), false);
            },
            None => {
                return None;
            },
        }
        Some(PopupCommand::FetchCollections { request_id })
    }

    /// Closes the browser popup and drops everything it held.
    pub fn close_iconify_search_popup(&mut self)
        ensures
            closed(*old(self), *final(self)),
            popup_wf(*final(self)),
    {
        self.app_focus = AppFocus::Main;
        self.iconify_search_popup_state = None;
    }

    /// Switches tabs.
    pub fn switch_iconify_search_tab(&mut self, now: u64)
        requires
            popup_wf(*old(self)),
        ensures
            tab_switched(*old(self), *final(self), now),
    {
        match &mut self.iconify_search_popup_state {
            Some(state) => {
                match state.active_tab {
                    IconifySearchTab::Collections => {
                        state.active_tab = IconifySearchTab::Icons;
                    },
                    IconifySearchTab::Icons => {
                        state.selected_collection_filter = None;
                        state.clear_search_input(now);
                        state.active_tab = IconifySearchTab::Collections;
                        state.is_loading_collection_icons = false;
                        state.refresh_visible_icons();
                    },
                }
                state.sync_search_dispatch_state(now);
            },
            None => {},
        }
    }

    /// Puts `value` in the search box.
    pub fn edit_iconify_search(&mut self, value: String, now: u64)
        requires
            popup_wf(*old(self)),
            old(self).iconify_search_popup_state is Some,
        ensures
            edited(*old(self), *final(self), value@, now),
    {
        match &mut self.iconify_search_popup_state {
            Some(state) => {
                state.update_search_value(value, now);
            },
            None => {},
        }
    }

    /// Chooses the collection `prefix` and fetches its icons unless they are
    /// cached.
    pub fn open_collection_icons(&mut self, prefix: String, now: u64) -> (cmd: Option<
        PopupCommand,
    >)
        requires
            popup_wf(*old(self)),
            old(self).iconify_search_popup_state is Some,
        ensures
            collection_opened(*old(self), prefix, now, *final(self), cmd),
    {
        let mut should_fetch = false;
        match &mut self.iconify_search_popup_state {
            Some(state) => {
                state.active_tab = IconifySearchTab::Icons;
                state.selected_collection_filter = Some(prefix.clone());
                state.selected_icon_index = 0;
                state.refresh_visible_icons();
                state.sync_search_dispatch_state(now);
                should_fetch = match &state.collection_icons_prefix {
                    Some(c) => !(*c == prefix),
                    None => true,
                };
                if should_fetch {
                    state.collection_icons = Vec::new();
                    state.collection_icons_prefix = None;
                    state.refresh_visible_icons();
                }
            },
            None => {},
        }
        if !should_fetch {
            return None;
        }
        let request_id = self.next_request_id();
        match &mut self.iconify_search_popup_state {
            Some(state) => {
                state.latest_collection_icons_request_id = request_id;
                state.is_loading_collection_icons = true;
                let mut message = String::from_str("Loading icons for collection '");
                message.append(prefix.as_str());
                message.append("'...");
                state.set_status(message, false);
            },
            None => {},
        }
        Some(PopupCommand::FetchCollectionIcons { request_id, prefix })
    }

    /// Runs once per frame: sends the pending free-text query once its
    /// deadline has passed.
    pub fn tick_iconify_search_popup(&mut self, now: u64) -> (cmd: Option<PopupCommand>)
        ensures
            ticked(*old(self), now, *final(self), cmd),
            popup_wf(*old(self)) ==> popup_wf(*final(self)),
    {
        let mut query: Option<String> = None;
        match &mut self.iconify_search_popup_state {
            Some(state) => {
                let due = match state.debounce_deadline {
                    Some(deadline) => now >= deadline && state.pending_search_query.is_some(),
                    None => false,
                };
                if due {
                    if state.active_tab != IconifySearchTab::Icons
                        || state.selected_collection_filter.is_some() {
                        state.pending_search_query = None;
                        state.debounce_deadline = None;
                        state.is_loading_search = false;
                    } else {
                        query = match &state.pending_search_query {
                            Some(q) => Some(q.clone()),
                            None => None,
                        };
                    }
                }
            },
            None => {},
        }
        match query {
            Some(q) => self.dispatch_iconify_search(q),
            None => None,
        }
    }

    fn dispatch_iconify_search(&mut self, query: String) -> (cmd: Option<PopupCommand>)
        requires
            old(self).iconify_search_popup_state is Some,
            popup_of(*old(self)).searches_remotely(),
        ensures
            final(self).iconify_search_popup_state is Some,
            *final(self) == (App {
                iconify_search_popup_state: final(self).iconify_search_popup_state,
                next_async_request_id: id_after(old(self).next_async_request_id),
                ..*old(self)
            }),
            popup_of(*final(self)) == (IconifySearchPopupState {
                pending_search_query: None,
                debounce_deadline: None,
                latest_search_request_id: id_after(old(self).next_async_request_id),
                is_loading_search: true,
                ..popup_of(*old(self))
            }),
            cmd == Some(
                PopupCommand::Search {
                    request_id: id_after(old(self).next_async_request_id),
                    query,
                },
            ),
    {
        let request_id = self.next_request_id();
        match &mut self.iconify_search_popup_state {
            Some(state) => {
                state.pending_search_query = None;
                state.debounce_deadline = None;
                state.latest_search_request_id = request_id;
                state.is_loading_search = true;
            },
            None => {},
        }
        Some(PopupCommand::Search { request_id, query })
    }
}


/// `b` is `a` with its popup's query emptied, as the Enter key on a
/// collection does before choosing it.
pub open spec fn search_cleared(a: App, b: App) -> bool {
    let s = popup_of(a);
    let t = popup_of(b);
    &&& b.iconify_search_popup_state is Some
    &&& b == with_popup(a, t)
    &&& t.wf()
    &&& t.search_value@.len() == 0
    &&& t.filtered_collections@.len() == 0
    &&& t.search_icons@.len() == 0
    &&& t.debounce_view() == idle()
    &&& t == (IconifySearchPopupState {
        search_value: t.search_value,
        selected_collection_index: clamped(
            s.selected_collection_index,
            s.all_collections@.len(),
        ),
        selected_icon_index: 0,
        filtered_collections: t.filtered_collections,
        search_icons: t.search_icons,
        visible_icons: t.visible_icons,
        pending_search_query: None,
        debounce_deadline: None,
        is_loading_search: false,
        status_message: None,
        status_is_error: false,
        ..s
    })
}

/// Status text where no icon is highlighted.
pub open spec fn no_icon_text() -> Seq<char> {
    "No icon selected."@
}

/// The Enter key: on Collections it chooses the highlighted collection; on
/// Icons it closes the popup and hands the highlighted icon to the add flow.
pub open spec fn entered(a: App, now: u64, b: App, cmd: Option<PopupCommand>) -> bool {
    let s = popup_of(a);
    match s.active_tab {
        IconifySearchTab::Collections => if s.selected_collection_index
            < s.shown_collections().len() {
            let prefix = s.shown_collections()[s.selected_collection_index as int].prefix;
            exists|mid: App| search_cleared(a, mid) && collection_opened(mid, prefix, now, b, cmd)
        } else {
            b == a && cmd is None
        },
        IconifySearchTab::Icons => if s.selected_icon_index < s.visible_icons@.len() {
            &&& closed(a, b)
            &&& cmd == Some(
                PopupCommand::StageIconForAdd {
                    icon_name: s.visible_icons@[s.selected_icon_index as int],
                },
            )
        } else {
            &&& b == with_popup(
                a,
                IconifySearchPopupState {
                    status_message: popup_of(b).status_message,
                    status_is_error: true,
                    ..s
                },
            )
            &&& opt_text(popup_of(b).status_message) == Some(no_icon_text())
            &&& cmd is None
        },
    }
}

/// Status text for an icon name with no collection prefix.
pub open spec fn invalid_name_text(name: Seq<char>) -> Seq<char> {
    "Cannot open Icones page for invalid icon name '"@ + name + "'."@
}

/// The browser shortcut: on Icons it asks to open the highlighted icon's
/// explorer page; it does nothing on Collections.
pub open spec fn browser_requested(a: App, b: App, cmd: Option<PopupCommand>) -> bool {
    let s = popup_of(a);
    let t = popup_of(b);
    if s.active_tab == IconifySearchTab::Collections {
        b == a && cmd is None
    } else {
        &&& b.iconify_search_popup_state is Some
        &&& b == with_popup(
            a,
            IconifySearchPopupState {
                status_message: t.status_message,
                status_is_error: t.status_is_error,
                ..s
            },
        )
        &&& if s.selected_icon_index < s.visible_icons@.len() {
            let name = s.visible_icons@[s.selected_icon_index as int]@;
            match cmd {
                Some(PopupCommand::OpenInBrowser { url }) => {
                    &&& exists|k: int|
                        crate::links::first_colon_at(name, k) && url@
                            == crate::links::icones_url_of(name, k)
                    &&& opt_text(t.status_message) == Some("Opening icon in browser..."@)
                    &&& !t.status_is_error
                },
                None => {
                    &&& crate::links::has_no_colon(name)
                    &&& opt_text(t.status_message) == Some(invalid_name_text(name))
                    &&& t.status_is_error
                },
                _ => false,
            }
        } else {
            &&& cmd is None
            &&& opt_text(t.status_message) == Some(no_icon_text())
            &&& t.status_is_error
        }
    }
}

/// An arrow key moved the selection of the tab on show.
pub open spec fn selection_moved(a: App, b: App, forward: bool) -> bool {
    let s = popup_of(a);
    &&& b == with_popup(
        a,
        match s.active_tab {
            IconifySearchTab::Collections => IconifySearchPopupState {
                selected_collection_index: crate::popup::stepped(
                    s.selected_collection_index,
                    s.shown_collections().len(),
                    forward,
                ),
                ..s
            },
            IconifySearchTab::Icons => IconifySearchPopupState {
                selected_icon_index: crate::popup::stepped(
                    s.selected_icon_index,
                    s.visible_icons@.len(),
                    forward,
                ),
                ..s
            },
        },
    )
}

/// What a key press does to an open popup.
pub open spec fn key_handled(a: App, key: PopupKey, now: u64, b: App, cmd: Option<
    PopupCommand,
>) -> bool {
    let q = popup_of(a).search_value@;
    match key {
        PopupKey::Esc => closed(a, b) && cmd is None,
        PopupKey::Tab => tab_switched(a, b, now) && cmd is None,
        PopupKey::Up => selection_moved(a, b, false) && cmd is None,
        PopupKey::Down => selection_moved(a, b, true) && cmd is None,
        PopupKey::Enter => entered(a, now, b, cmd),
        PopupKey::OpenInBrowser => browser_requested(a, b, cmd),
        PopupKey::Char(c) => edited(a, b, q.push(c), now) && cmd is None,
        PopupKey::Backspace => edited(
            a,
            b,
            if q.len() > 0 {
                q.drop_last()
            } else {
                q
            },
            now,
        ) && cmd is None,
    }
}

impl App {
    /// The Enter key.
    pub fn enter_iconify_search(&mut self, now: u64) -> (cmd: Option<PopupCommand>)
        requires
            popup_wf(*old(self)),
            old(self).iconify_search_popup_state is Some,
        ensures
            entered(*old(self), now, *final(self), cmd),
            popup_wf(*final(self)),
    {
        let ghost a = *self;
        let mut open_prefix: Option<String> = None;
        let mut stage: Option<String> = None;
        match &mut self.iconify_search_popup_state {
            Some(state) => {
                match state.active_tab {
                    IconifySearchTab::Collections => {
                        match state.selected_collection_prefix() {
                            Some(prefix) => {
                                state.clear_search_input(now);
                                open_prefix = Some(prefix);
                            },
                            None => {},
                        }
                    },
                    IconifySearchTab::Icons => {
                        match state.selected_icon_name() {
                            Some(icon_name) => {
                                stage = Some(icon_name);
                            },
                            None => {
                                state.set_status(String::from_str("No icon selected."), true);
                            },
                        }
                    },
                }
            },
            None => {},
        }
        match open_prefix {
            Some(prefix) => {
                let ghost mid = *self;
                let cmd = self.open_collection_icons(prefix, now);
                assert(search_cleared(a, mid) && collection_opened(mid, prefix, now, *self, cmd));
                cmd
            },
            None => match stage {
                Some(icon_name) => {
                    self.close_iconify_search_popup();
                    Some(PopupCommand::StageIconForAdd { icon_name })
                },
                None => None,
            },
        }
    }

    /// The browser shortcut.
    pub fn request_icon_in_browser(&mut self) -> (cmd: Option<PopupCommand>)
        requires
            old(self).iconify_search_popup_state is Some,
        ensures
            browser_requested(*old(self), *final(self), cmd),
            popup_wf(*old(self)) ==> popup_wf(*final(self)),
    {
        let icon = match &mut self.iconify_search_popup_state {
            Some(state) => {
                if state.active_tab != IconifySearchTab::Icons {
                    return None;
                }
                match state.selected_icon_name() {
                    Some(icon_name) => icon_name,
                    None => {
                        state.set_status(String::from_str("No icon selected."), true);
                        return None;
                    },
                }
            },
            None => {
                return None;
            },
        };
        self.open_icon_browser_preview(icon)
    }

    /// Asks to open the explorer page of `icon_name`, or says why it cannot.
    fn open_icon_browser_preview(&mut self, icon_name: String) -> (cmd: Option<PopupCommand>)
        requires
            old(self).iconify_search_popup_state is Some,
        ensures
            ({
                let s = popup_of(*old(self));
                let t = popup_of(*final(self));
                &&& final(self).iconify_search_popup_state is Some
                &&& *final(self) == with_popup(
                    *old(self),
                    IconifySearchPopupState {
                        status_message: t.status_message,
                        status_is_error: t.status_is_error,
                        ..s
                    },
                )
                &&& match cmd {
                    Some(PopupCommand::OpenInBrowser { url }) => {
                        &&& exists|k: int|
                            crate::links::first_colon_at(icon_name@, k) && url@
                                == crate::links::icones_url_of(icon_name@, k)
                        &&& opt_text(t.status_message) == Some("Opening icon in browser..."@)
                        &&& !t.status_is_error
                    },
                    None => {
                        &&& crate::links::has_no_colon(icon_name@)
                        &&& opt_text(t.status_message) == Some(invalid_name_text(icon_name@))
                        &&& t.status_is_error
                    },
                    _ => false,
                }
            }),
    {
        let url = icones_collection_url(icon_name.as_str());
        match &mut self.iconify_search_popup_state {
            Some(state) => match url {
                Some(url) => {
                    state.set_status(String::from_str("Opening icon in browser..."), false);
                    Some(PopupCommand::OpenInBrowser { url })
                },
                None => {
                    let mut message = String::from_str(
                        "Cannot open Icones page for invalid icon name '",
                    );
                    message.append(icon_name.as_str());
                    message.append("'.");
                    state.set_status(message, true);
                    None
                },
            },
            None => None,
        }
    }

    /// Reports how opening `url` in a browser went.
    pub fn browser_open_finished(&mut self, url: &str, result: Result<(), String>)
        ensures
            old(self).iconify_search_popup_state is None ==> *final(self) == *old(self),
            old(self).iconify_search_popup_state is Some ==> {
                let t = popup_of(*final(self));
                &&& final(self).iconify_search_popup_state is Some
                &&& *final(self) == with_popup(
                    *old(self),
                    IconifySearchPopupState {
                        status_message: t.status_message,
                        status_is_error: t.status_is_error,
                        ..popup_of(*old(self))
                    },
                )
                &&& match result {
                    Ok(_) => opt_text(t.status_message) == Some("Opened Icones page: "@ + url@)
                        && !t.status_is_error,
                    Err(e) => opt_text(t.status_message) == Some(
                        "Failed to open browser: "@ + e@,
                    ) && t.status_is_error,
                }
            },
            popup_wf(*old(self)) ==> popup_wf(*final(self)),
    {
        match &mut self.iconify_search_popup_state {
            Some(state) => match result {
                Ok(()) => {
                    let mut message = String::from_str("Opened Icones page: ");
                    message.append(url);
                    state.set_status(message, false);
                },
                Err(error) => {
                    let mut message = String::from_str("Failed to open browser: ");
                    message.append(error.as_str());
                    state.set_status(message, true);
                },
            },
            None => {},
        }
    }

    /// Handles one key press in the browser popup.
    pub fn handlekeys_iconify_search_popup(&mut self, key: PopupKey, now: u64) -> (cmd: Option<
        PopupCommand,
    >)
        requires
            popup_wf(*old(self)),
        ensures
            popup_wf(*final(self)),
            old(self).iconify_search_popup_state is None ==> *final(self) == *old(self)
                && cmd is None,
            old(self).iconify_search_popup_state is Some ==> key_handled(
                *old(self),
                key,
                now,
                *final(self),
                cmd,
            ),
    {
        if self.iconify_search_popup_state.is_none() {
            return None;
        }
        match key {
            PopupKey::Esc => {
                self.close_iconify_search_popup();
                None
            },
            PopupKey::Tab => {
                self.switch_iconify_search_tab(now);
                None
            },
            PopupKey::Up => {
                self.move_iconify_search_selection(false);
                None
            },
            PopupKey::Down => {
                self.move_iconify_search_selection(true);
                None
            },
            PopupKey::Enter => self.enter_iconify_search(now),
            PopupKey::OpenInBrowser => self.request_icon_in_browser(),
            PopupKey::Char(c) => {
                let mut value = match &self.iconify_search_popup_state {
                    Some(state) => state.search_value.clone(),
                    None => String::new(),
                };
                push_char(&mut value, c);
                self.edit_iconify_search(value, now);
                None
            },
            PopupKey::Backspace => {
                let mut value = match &self.iconify_search_popup_state {
                    Some(state) => state.search_value.clone(),
                    None => String::new(),
                };
                pop_char(&mut value);
                self.edit_iconify_search(value, now);
                None
            },
        }
    }

    fn move_iconify_search_selection(&mut self, forward: bool)
        requires
            popup_wf(*old(self)),
            old(self).iconify_search_popup_state is Some,
        ensures
            selection_moved(*old(self), *final(self), forward),
            popup_wf(*final(self)),
    {
        match &mut self.iconify_search_popup_state {
            Some(state) => match state.active_tab {
                IconifySearchTab::Collections => state.move_collection_selection(forward),
                IconifySearchTab::Icons => state.move_icon_selection(forward),
            },
            None => {},
        }
    }
}


/// The id a completion carries.
pub open spec fn event_id(e: AppEvent) -> u64 {
    match e {
        AppEvent::IconifyCollectionsLoaded { request_id, .. } => request_id,
        AppEvent::IconifySearchLoaded { request_id, .. } => request_id,
        AppEvent::IconifyCollectionIconsLoaded { request_id, .. } => request_id,
    }
}

/// The latest id the popup handed out for the kind of request `e` completes.
pub open spec fn latest_for(s: IconifySearchPopupState, e: AppEvent) -> u64 {
    match e {
        AppEvent::IconifyCollectionsLoaded { .. } => s.latest_collections_request_id,
        AppEvent::IconifySearchLoaded { .. } => s.latest_search_request_id,
        AppEvent::IconifyCollectionIconsLoaded { .. } => s.latest_collection_icons_request_id,
    }
}

/// Whether two completions answer the same kind of request.
pub open spec fn same_kind(e: AppEvent, f: AppEvent) -> bool {
    match (e, f) {
        (AppEvent::IconifyCollectionsLoaded { .. }, AppEvent::IconifyCollectionsLoaded { .. }) => true,
        (AppEvent::IconifySearchLoaded { .. }, AppEvent::IconifySearchLoaded { .. }) => true,
        (
            AppEvent::IconifyCollectionIconsLoaded { .. },
            AppEvent::IconifyCollectionIconsLoaded { .. },
        ) => true,
        _ => false,
    }
}

/// The request ids of two popups agree.
pub open spec fn same_ids(s: IconifySearchPopupState, t: IconifySearchPopupState) -> bool {
    &&& t.latest_collections_request_id == s.latest_collections_request_id
    &&& t.latest_search_request_id == s.latest_search_request_id
    &&& t.latest_collection_icons_request_id == s.latest_collection_icons_request_id
}

/// Applying the collections list `result`.
pub open spec fn collections_applied(
    s: IconifySearchPopupState,
    result: Result<Vec<IconifyCollectionListItem>, String>,
    t: IconifySearchPopupState,
) -> bool {
    &&& t == (IconifySearchPopupState {
        all_collections: t.all_collections,
        filtered_collections: t.filtered_collections,
        selected_collection_index: t.selected_collection_index,
        is_loading_collections: false,
        status_message: t.status_message,
        status_is_error: t.status_is_error,
        ..s
    })
    &&& match result {
        Ok(items) => {
            &&& t.all_collections == items
            &&& t.selected_collection_index == clamped(
                s.selected_collection_index,
                t.shown_collections().len(),
            )
            &&& if items@.len() == 0 {
                opt_text(t.status_message) == Some("No Iconify collections found."@)
                    && !t.status_is_error
            } else if !s.is_loading_search {
                t.status_message is None && !t.status_is_error
            } else {
                t.status_message == s.status_message && t.status_is_error == s.status_is_error
            }
        },
        Err(e) => {
            &&& t.all_collections == s.all_collections
            &&& t.filtered_collections == s.filtered_collections
            &&& t.selected_collection_index == s.selected_collection_index
            &&& t.status_message == Some(e)
            &&& t.status_is_error
        },
    }
}

/// Applying the free-text results `result` for `query`.
pub open spec fn search_applied(
    s: IconifySearchPopupState,
    query: String,
    result: Result<IconifySearchPayload, String>,
    t: IconifySearchPopupState,
) -> bool {
    if query@ != trimmed(s.search_value@) {
        t == s
    } else if !s.searches_remotely() {
        t == (IconifySearchPopupState { is_loading_search: false, ..s })
    } else {
        &&& t == (IconifySearchPopupState {
            search_icons: t.search_icons,
            visible_icons: t.visible_icons,
            selected_icon_index: t.selected_icon_index,
            is_loading_search: false,
            status_message: t.status_message,
            status_is_error: t.status_is_error,
            ..s
        })
        &&& t.visible_icons@ == t.search_icons@
        &&& match result {
            Ok(payload) => {
                &&& t.search_icons == payload.icons
                &&& if payload.icons@.len() == 0 && s.shown_collections().len() == 0 {
                    opt_text(t.status_message) == Some("No matching icons or collections."@)
                        && !t.status_is_error
                } else {
                    t.status_message is None && !t.status_is_error
                }
            },
            Err(e) => {
                &&& t.search_icons@.len() == 0
                &&& t.status_message == Some(e)
                &&& t.status_is_error
            },
        }
    }
}

/// Applying the icon list `result` of the collection `prefix`.
pub open spec fn collection_icons_applied(
    s: IconifySearchPopupState,
    prefix: String,
    result: Result<Vec<String>, String>,
    t: IconifySearchPopupState,
) -> bool {
    &&& t == (IconifySearchPopupState {
        collection_icons: t.collection_icons,
        collection_icons_prefix: t.collection_icons_prefix,
        visible_icons: t.visible_icons,
        selected_icon_index: t.selected_icon_index,
        is_loading_collection_icons: false,
        status_message: t.status_message,
        status_is_error: t.status_is_error,
        ..s
    })
    &&& match result {
        Ok(icons) => {
            &&& t.collection_icons_prefix == Some(prefix)
            &&& t.collection_icons == icons
            &&& if icons@.len() == 0 {
                opt_text(t.status_message) == Some("No icons in this collection."@)
                    && !t.status_is_error
            } else if !is_blank(s.search_value@) && t.visible_icons@.len() == 0 {
                opt_text(t.status_message) == Some("No matching icons in this collection."@)
                    && !t.status_is_error
            } else {
                t.status_message is None && !t.status_is_error
            }
        },
        Err(e) => {
            &&& t.collection_icons@.len() == 0
            &&& t.collection_icons_prefix is None
            &&& t.status_message == Some(e)
            &&& t.status_is_error
        },
    }
}

/// What a completion does: nothing without a popup or where its id is not
/// the latest of its kind; else its result lands in the popup.
pub open spec fn event_applied(a: App, e: AppEvent, b: App) -> bool {
    let s = popup_of(a);
    let t = popup_of(b);
    if a.iconify_search_popup_state is None || event_id(e) != latest_for(s, e) {
        b == a
    } else {
        &&& b.iconify_search_popup_state is Some
        &&& b == with_popup(a, t)
        &&& t.wf()
        &&& match e {
            AppEvent::IconifyCollectionsLoaded { result, .. } => collections_applied(s, result, t),
            AppEvent::IconifySearchLoaded { query, result, .. } => search_applied(
                s,
                query,
                result,
                t,
            ),
            AppEvent::IconifyCollectionIconsLoaded { prefix, result, .. } => collection_icons_applied(
                s,
                prefix,
                result,
                t,
            ),
        }
    }
}

impl App {
    /// Applies the completion of a background request.
    pub fn handle_app_event(&mut self, event: AppEvent)
        requires
            popup_wf(*old(self)),
        ensures
            event_applied(*old(self), event, *final(self)),
            popup_wf(*final(self)),
    {
        match &mut self.iconify_search_popup_state {
            None => {},
            Some(state) => match event {
                AppEvent::IconifyCollectionsLoaded { request_id, result } => {
                    if request_id != state.latest_collections_request_id {
                        return;
                    }
                    state.is_loading_collections = false;
                    match result {
                        Ok(items) => {
                            state.all_collections = items;
                            state.refresh_filtered_collections();
                            state.clamp_collection_selection();
                            if state.all_collections.len() == 0 {
                                state.set_status(
                                    String::from_str("No Iconify collections found."),
                                    false,
                                );
                            } else if !state.is_loading_search {
                                state.clear_status();
                            }
                        },
                        Err(error) => state.set_status(error, true),
                    }
                },
                AppEvent::IconifySearchLoaded { request_id, query, result } => {
                    if request_id != state.latest_search_request_id {
                        return;
                    }
                    let current = trim_text(state.search_value.as_str());
                    if !(query == current) {
                        return;
                    }
                    if state.active_tab != IconifySearchTab::Icons
                        || state.selected_collection_filter.is_some() {
                        state.is_loading_search = false;
                        return;
                    }
                    state.is_loading_search = false;
                    match result {
                        Ok(payload) => {
                            state.search_icons = payload.icons;
                            state.clamp_collection_selection();
                            state.refresh_visible_icons();
                            if state.search_icons.len() == 0
                                && state.active_collections().len() == 0 {
                                state.set_status(
                                    String::from_str("No matching icons or collections."),
                                    false,
                                );
                            } else {
                                state.clear_status();
                            }
                        },
                        Err(error) => {
                            state.search_icons = Vec::new();
                            state.refresh_visible_icons();
                            state.set_status(error, true);
                        },
                    }
                },
                AppEvent::IconifyCollectionIconsLoaded { request_id, prefix, result } => {
                    if request_id != state.latest_collection_icons_request_id {
                        return;
                    }
                    state.is_loading_collection_icons = false;
                    match result {
                        Ok(icons) => {
                            state.collection_icons_prefix = Some(prefix);
                            state.collection_icons = icons;
                            state.refresh_visible_icons();
                            if state.collection_icons.len() == 0 {
                                state.set_status(
                                    String::from_str("No icons in this collection."),
                                    false,
                                );
                            } else if !text_is_blank(state.search_value.as_str())
                                && state.visible_icons.len() == 0 {
                                state.set_status(
                                    String::from_str("No matching icons in this collection."),
                                    false,
                                );
                            } else {
                                state.clear_status();
                            }
                        },
                        Err(error) => {
                            state.collection_icons = Vec::new();
                            state.collection_icons_prefix = None;
                            state.refresh_visible_icons();
                            state.set_status(error, true);
                        },
                    }
                },
            },
        }
    }
}


/// Once the completion of the latest request of a kind has been applied, a
/// completion of an older request of the same kind changes nothing.
pub proof fn lemma_stale_completion_is_dropped(
    a: App,
    newer: AppEvent,
    b: App,
    older: AppEvent,
    c: App,
)
    requires
        a.iconify_search_popup_state is Some,
        event_id(newer) == latest_for(popup_of(a), newer),
        event_applied(a, newer, b),
        same_kind(newer, older),
        event_id(older) < event_id(newer),
        event_applied(b, older, c),
    ensures
        c == b,
{
    assert(same_ids(popup_of(a), popup_of(b)));
}

/// Choosing a collection whose icons are not cached sends exactly one fetch;
/// once that fetch has landed, going back to the collections and choosing
/// the same one again sends none and uses no new id.
pub proof fn lemma_cached_collection_is_not_fetched_again(
    a0: App,
    prefix: String,
    t0: u64,
    a1: App,
    first: Option<PopupCommand>,
    icons: Vec<String>,
    a2: App,
    t1: u64,
    a3: App,
    t2: u64,
    a4: App,
    second: Option<PopupCommand>,
)
    requires
        a0.iconify_search_popup_state is Some,
        !is_cached(popup_of(a0), prefix@),
        collection_opened(a0, prefix, t0, a1, first),
        event_applied(
            a1,
            AppEvent::IconifyCollectionIconsLoaded {
                request_id: a1.next_async_request_id,
                prefix,
                result: Ok(icons),
            },
            a2,
        ),
        tab_switched(a2, a3, t1),
        collection_opened(a3, prefix, t2, a4, second),
    ensures
        first == (Some(
            PopupCommand::FetchCollectionIcons { request_id: a1.next_async_request_id, prefix },
        )),
        second is None,
        a4.next_async_request_id == a3.next_async_request_id,
{
    assert(is_cached(popup_of(a2), prefix@));
    assert(popup_of(a2).active_tab == IconifySearchTab::Icons);
    assert(is_cached(popup_of(a3), prefix@));
}

/// Closing the popup and opening it again starts from empty lists, empty
/// caches and zero selections, while request ids keep growing.
pub proof fn lemma_reopen_resets_popup_keeps_ids(
    a0: App,
    a1: App,
    a2: App,
    cmd: PopupCommand,
)
    requires
        closed(a0, a1),
        opened(a1, a2, cmd),
        a0.next_async_request_id < u64::MAX,
    ensures
        popup_of(a2).all_collections@.len() == 0,
        popup_of(a2).filtered_collections@.len() == 0,
        popup_of(a2).search_icons@.len() == 0,
        popup_of(a2).collection_icons@.len() == 0,
        popup_of(a2).collection_icons_prefix is None,
        popup_of(a2).visible_icons@.len() == 0,
        popup_of(a2).selected_collection_filter is None,
        popup_of(a2).selected_collection_index == 0,
        popup_of(a2).selected_icon_index == 0,
        a2.next_async_request_id > a0.next_async_request_id,
        cmd == (PopupCommand::FetchCollections { request_id: a2.next_async_request_id }),
{
}

/// The free-text queries that a run of commands sends, in order.
pub open spec fn searches_sent(cmds: Seq<Option<PopupCommand>>) -> Seq<Seq<char>>
    decreases cmds.len(),
{
    if cmds.len() == 0 {
        Seq::empty()
    } else {
        let before = searches_sent(cmds.drop_last());
        match cmds.last() {
            Some(PopupCommand::Search { query, .. }) => before.push(query@),
            _ => before,
        }
    }
}

/// Step `i` of a run: the keystroke `evs[i]` edited the search box, or the
/// frame `evs[i]` ticked the popup.
pub open spec fn popup_step(
    apps: Seq<App>,
    evs: Seq<crate::debounce::DebounceEvent>,
    cmds: Seq<Option<PopupCommand>>,
    i: int,
) -> bool {
    match evs[i] {
        crate::debounce::DebounceEvent::Keystroke { text, at } => edited(
            apps[i],
            apps[i + 1],
            text,
            at,
        ) && cmds[i] is None,
        crate::debounce::DebounceEvent::Frame { at } => ticked(apps[i], at, apps[i + 1], cmds[i]),
    }
}

/// Through the first `n` steps of a run the popup's pending query and the
/// searches it sends follow the debounce model, started from the popup's
/// own pending state.
proof fn lemma_popup_run_follows_model(
    apps: Seq<App>,
    evs: Seq<crate::debounce::DebounceEvent>,
    cmds: Seq<Option<PopupCommand>>,
    n: int,
)
    requires
        apps.len() == evs.len() + 1,
        cmds.len() == evs.len(),
        0 <= n <= evs.len(),
        apps[0].iconify_search_popup_state is Some,
        popup_of(apps[0]).searches_remotely(),
        forall|i: int| 0 <= i < evs.len() ==> popup_step(apps, evs, cmds, i),
    ensures
        apps[n].iconify_search_popup_state is Some,
        popup_of(apps[n]).searches_remotely(),
        popup_of(apps[n]).debounce_view() == crate::debounce::run_state(
            popup_of(apps[0]).debounce_view(),
            evs.take(n),
        ),
        searches_sent(cmds.take(n)) == crate::debounce::run_sent(
            popup_of(apps[0]).debounce_view(),
            evs.take(n),
        ),
    decreases n,
{
    if n == 0 {
        assert(evs.take(0) =~= Seq::<crate::debounce::DebounceEvent>::empty());
        assert(cmds.take(0) =~= Seq::<Option<PopupCommand>>::empty());
    } else {
        lemma_popup_run_follows_model(apps, evs, cmds, n - 1);
        assert(popup_step(apps, evs, cmds, n - 1));
        assert(evs.take(n).drop_last() =~= evs.take(n - 1));
        assert(evs.take(n).last() == evs[n - 1]);
        assert(cmds.take(n).drop_last() =~= cmds.take(n - 1));
        assert(cmds.take(n).last() == cmds[n - 1]);
    }
}

/// However fast keystrokes come, while typing asks the remote index the
/// popup sends the free-text queries that the debounce model sends: for a
/// burst closed by a frame past the last keystroke's deadline, exactly one,
/// the final text trimmed where it is not blank, and none in the frames
/// after it. The popup may start idle, or with anything pending when the
/// burst opens with a keystroke.
pub proof fn lemma_popup_burst_sends_one_search(
    apps: Seq<App>,
    evs: Seq<crate::debounce::DebounceEvent>,
    cmds: Seq<Option<PopupCommand>>,
    burst: Seq<crate::debounce::DebounceEvent>,
    end: u64,
    tail: Seq<crate::debounce::DebounceEvent>,
)
    requires
        evs == burst.push(crate::debounce::DebounceEvent::Frame { at: end }) + tail,
        apps.len() == evs.len() + 1,
        cmds.len() == evs.len(),
        apps[0].iconify_search_popup_state is Some,
        popup_of(apps[0]).searches_remotely(),
        crate::debounce::may_start(popup_of(apps[0]).debounce_view(), burst),
        forall|i: int| 0 <= i < evs.len() ==> popup_step(apps, evs, cmds, i),
        crate::debounce::is_burst(burst),
        crate::debounce::last_keystroke(burst) is Some,
        !is_blank(crate::debounce::last_keystroke(burst)->0.text),
        end >= crate::debounce::deadline_after(crate::debounce::last_keystroke(burst)->0.at),
        forall|i: int| 0 <= i < tail.len() ==> #[trigger] tail[i] is Frame,
    ensures
        searches_sent(cmds) == seq![trimmed(crate::debounce::last_keystroke(burst)->0.text)],
{
    let n = evs.len() as int;
    lemma_popup_run_follows_model(apps, evs, cmds, n);
    assert(evs.take(n) =~= evs);
    assert(cmds.take(n) =~= cmds);
    crate::debounce::lemma_burst_sends_final_query(
        popup_of(apps[0]).debounce_view(),
        burst,
        end,
        tail,
    );
}

} // verus!
