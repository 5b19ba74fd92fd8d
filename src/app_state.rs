//! The application state that the browser popup lives in.

use vstd::prelude::*;
use vstd::string::*;
use crate::popup::IconifySearchPopupState;
use crate::text::{
    contains_text, is_blank, is_substring, lowercase_of, pop_char, push_char, to_lowercase, trim_text,
    trimmed,
};
use crate::utils::IconEntry;

verus! {

/// Which view has the keyboard.
#[derive(Debug, Clone, Copy, PartialEq, Eq, Structural)]
pub enum AppFocus {
    Main,
    AddPopup,
    DeletePopup,
    HelpPopup,
    RenamePopup,
    Search,
    IconifySearchPopup,
}

/// Whether the main view's keys move through the list or edit its filter.
#[derive(Debug, Clone, Copy, PartialEq, Eq, Structural)]
pub enum MainStateFocus {
    Normal,
    Search,
}

/// A key press in the delete confirmation.
#[derive(Debug, Clone, Copy, PartialEq, Eq, Structural)]
pub enum DeleteKey {
    /// Confirm at once.
    Yes,
    /// Cancel at once; Esc does the same.
    No,
    /// Take the highlighted answer.
    Enter,
    Up,
    Down,
}

/// A key press while the main list's filter has the keyboard.
#[derive(Debug, Clone, Copy, PartialEq, Eq, Structural)]
pub enum SearchKey {
    /// Leave the filter and empty it.
    Esc,
    /// Leave the filter and keep it.
    Enter,
    Char(char),
    Backspace,
}

/// Settings the application runs with.
#[derive(Debug, Clone)]
pub struct AppConfig {
    pub folder: String,
    pub preset: String,
    pub template: Option<String>,
    pub svg_viewer_cmd: Option<String>,
    pub svg_viewer_cmd_source: String,
    pub global_config_loaded: bool,
    pub project_config_loaded: bool,
}

/// The confirmation popup for deleting one icon.
#[derive(Debug)]
pub struct DeletePopupState {
    /// Zero for "yes", one for "no".
    pub selected_index: usize,
    pub item_to_delete: Option<IconEntry>,
}

/// The popup for renaming one icon's file.
#[derive(Debug)]
pub struct RenamePopupState {
    pub item_to_rename: Option<IconEntry>,
    /// The new file name as typed so far.
    pub filename_input: String,
    pub status_message: Option<String>,
    pub status_is_error: bool,
}

/// A rename the caller is to carry out on disk.
#[derive(Debug, Clone)]
pub struct RenameRequest {
    pub item: IconEntry,
    pub new_filename: String,
}

/// The whole application state.
pub struct App {
    pub config: AppConfig,
    pub should_quit: bool,
    pub selected_index: usize,
    pub search_items_value: String,
    pub items: Vec<IconEntry>,
    pub filtered_items: Vec<IconEntry>,
    pub app_focus: AppFocus,
    pub delete_popup_state: Option<DeletePopupState>,
    pub rename_popup_state: Option<RenamePopupState>,
    pub iconify_search_popup_state: Option<IconifySearchPopupState>,
    /// The last request id handed out; never reset while the application runs.
    pub next_async_request_id: u64,
}


/// The entries of `items` whose lowercased name holds `filter` lowercased,
/// in order.
pub open spec fn entries_matching(items: Seq<IconEntry>, filter: Seq<char>) -> Seq<IconEntry>
    decreases items.len(),
{
    if items.len() == 0 {
        Seq::empty()
    } else {
        let rest = entries_matching(items.drop_last(), filter);
        if is_substring(lowercase_of(filter), lowercase_of(items.last().name@)) {
            rest.push(items.last())
        } else {
            rest
        }
    }
}

impl App {
    /// A fresh application on the main view, with no icons listed yet.
    pub fn new(config: AppConfig) -> (r: App)
        ensures
            r.config == config,
            !r.should_quit,
            r.selected_index == 0,
            r.search_items_value@.len() == 0,
            r.items@.len() == 0,
            r.filtered_items@.len() == 0,
            r.app_focus == AppFocus::Main,
            r.delete_popup_state is None,
            r.rename_popup_state is None,
            r.iconify_search_popup_state is None,
            r.next_async_request_id == 0,
    {
        App {
            config,
            should_quit: false,
            selected_index: 0,
            search_items_value: String::new(),
            items: Vec::new(),
            filtered_items: Vec::new(),
            app_focus: AppFocus::Main,
            delete_popup_state: None,
            rename_popup_state: None,
            iconify_search_popup_state: None,
            next_async_request_id: 0,
        }
    }

    /// Lists `icons`, read from the project's export ledger, all of them shown.
    pub fn init_icons(&mut self, icons: Vec<IconEntry>)
        ensures
            final(self).items == icons,
            final(self).filtered_items@ == icons@,
            *final(self) == (App {
                items: final(self).items,
                filtered_items: final(self).filtered_items,
                ..*old(self)
            }),
    {
        let mut shown: Vec<IconEntry> = Vec::new();
        let mut i: usize = 0;
        while i < icons.len()
            invariant
                i <= icons@.len(),
                shown@ == icons@.take(i as int),
            decreases icons@.len() - i,
        {
            shown.push(icons[i].duplicate());
            i = i + 1;
            assert(shown@ =~= icons@.take(i as int));
        }
        assert(icons@.take(icons@.len() as int) =~= icons@);
        self.items = icons;
        self.filtered_items = shown;
    }

    /// Per-frame upkeep of the main view; it has none.
    pub fn update(&mut self)
        ensures
            *final(self) == *old(self),
    {
    }

    /// Shows the icons whose name holds the search text, ignoring case.
    pub fn update_filtered_items(&mut self)
        ensures
            final(self).filtered_items@ == entries_matching(
                old(self).items@,
                old(self).search_items_value@,
            ),
            *final(self) == (App { filtered_items: final(self).filtered_items, ..*old(self) }),
    {
        let filter = to_lowercase(self.search_items_value.as_str());
        let mut shown: Vec<IconEntry> = Vec::new();
        let mut i: usize = 0;
        while i < self.items.len()
            invariant
                i <= self.items@.len(),
                filter@ == lowercase_of(self.search_items_value@),
                shown@ == entries_matching(self.items@.take(i as int), self.search_items_value@),
            decreases self.items@.len() - i,
        {
            let name = to_lowercase(self.items[i].name.as_str());
            let keep = contains_text(name.as_str(), filter.as_str());
            assert(self.items@.take(i + 1).drop_last() =~= self.items@.take(i as int));
            if keep {
                shown.push(self.items[i].duplicate());
            }
            i = i + 1;
        }
        assert(self.items@.take(self.items@.len() as int) =~= self.items@);
        self.filtered_items = shown;
    }

    /// Opens the delete confirmation for the highlighted icon, if any.
    pub fn init_delete_popup(&mut self)
        ensures
            *final(self) == (App {
                app_focus: AppFocus::DeletePopup,
                delete_popup_state: final(self).delete_popup_state,
                ..*old(self)
            }),
            final(self).delete_popup_state is Some,
            final(self).delete_popup_state->0.selected_index == 0,
            final(self).delete_popup_state->0.item_to_delete == (if old(self).selected_index
                < old(self).filtered_items@.len() {
                Some(old(self).filtered_items@[old(self).selected_index as int])
            } else {
                None
            }),
    {
        self.app_focus = AppFocus::DeletePopup;
        let item = if self.selected_index < self.filtered_items.len() {
            Some(self.filtered_items[self.selected_index].duplicate())
        } else {
            None
        };
        self.delete_popup_state = Some(DeletePopupState { selected_index: 0, item_to_delete: item });
    }

    /// Closes the delete confirmation.
    pub fn close_delete_popup(&mut self)
        ensures
            *final(self) == (App {
                app_focus: AppFocus::Main,
                delete_popup_state: None,
                ..*old(self)
            }),
    {
        self.app_focus = AppFocus::Main;
        self.delete_popup_state = None;
    }

    /// Hides the help popup.
    pub fn close_help_popup(&mut self)
        ensures
            *final(self) == (App { app_focus: AppFocus::Main, ..*old(self) }),
    {
        self.app_focus = AppFocus::Main;
    }

    /// Shows the help popup.
    pub fn init_help_popup(&mut self)
        ensures
            *final(self) == (App { app_focus: AppFocus::HelpPopup, ..*old(self) }),
    {
        self.app_focus = AppFocus::HelpPopup;
    }
}


/// How many rows the main list shows: the filtered icons, or all of them
/// where the filter leaves none.
pub open spec fn listed_count(a: App) -> nat {
    if a.filtered_items@.len() > 0 {
        a.filtered_items@.len()
    } else {
        a.items@.len()
    }
}

impl App {
    /// Moves the main list's selection one row, wrapping at either end.
    pub fn move_main_selection(&mut self, forward: bool)
        ensures
            *final(self) == (App { selected_index: final(self).selected_index, ..*old(self) }),
            final(self).selected_index == (if forward {
                if (old(self).selected_index as int) < listed_count(*old(self)) - 1 {
                    (old(self).selected_index + 1) as usize
                } else {
                    0
                }
            } else {
                if old(self).selected_index > 0 {
                    (old(self).selected_index - 1) as usize
                } else if listed_count(*old(self)) > 0 {
                    (listed_count(*old(self)) - 1) as usize
                } else {
                    0
                }
            }),
    {
        let count = if self.filtered_items.len() > 0 {
            self.filtered_items.len()
        } else {
            self.items.len()
        };
        if forward {
            if self.selected_index < count.saturating_sub(1) {
                self.selected_index = self.selected_index + 1;
            } else {
                self.selected_index = 0;
            }
        } else if self.selected_index > 0 {
            self.selected_index = self.selected_index - 1;
        } else {
            self.selected_index = count.saturating_sub(1);
        }
    }

    /// Handles a key in the delete confirmation. Returns the icon to delete
    /// once the deletion is confirmed; the popup then closes, as it does on
    /// cancel.
    pub fn handlekeys_delete_popup(&mut self, key: DeleteKey) -> (r: Option<IconEntry>)
        ensures
            old(self).delete_popup_state is None ==> *final(self) == *old(self) && r is None,
            old(self).delete_popup_state is Some ==> {
                let s = old(self).delete_popup_state->0;
                let confirmed = key == DeleteKey::Yes || (key == DeleteKey::Enter
                    && s.selected_index == 0);
                let closing = confirmed || key == DeleteKey::No || key == DeleteKey::Enter;
                &&& closing ==> *final(self) == (App {
                    app_focus: AppFocus::Main,
                    delete_popup_state: None,
                    ..*old(self)
                })
                &&& r == (if confirmed {
                    s.item_to_delete
                } else {
                    None
                })
                &&& key == DeleteKey::Up ==> *final(self) == (App {
                    delete_popup_state: Some(
                        DeletePopupState {
                            selected_index: if s.selected_index > 0 {
                                (s.selected_index - 1) as usize
                            } else {
                                0
                            },
                            ..s
                        },
                    ),
                    ..*old(self)
                })
                &&& key == DeleteKey::Down ==> *final(self) == (App {
                    delete_popup_state: Some(
                        DeletePopupState {
                            selected_index: if s.selected_index >= 1 {
                                1
                            } else {
                                (s.selected_index + 1) as usize
                            },
                            ..s
                        },
                    ),
                    ..*old(self)
                })
            },
    {
        let (selected, item) = match &self.delete_popup_state {
            None => {
                return None;
            },
            Some(state) => (
                state.selected_index,
                match &state.item_to_delete {
                    Some(e) => Some(e.duplicate()),
                    None => None,
                },
            ),
        };
        match key {
            DeleteKey::Yes => {
                self.close_delete_popup();
                item
            },
            DeleteKey::No => {
                self.close_delete_popup();
                None
            },
            DeleteKey::Enter => {
                self.close_delete_popup();
                if selected == 0 {
                    item
                } else {
                    None
                }
            },
            DeleteKey::Up => {
                match &mut self.delete_popup_state {
                    Some(state) => {
                        state.selected_index = state.selected_index.saturating_sub(1);
                    },
                    None => {},
                }
                None
            },
            DeleteKey::Down => {
                match &mut self.delete_popup_state {
                    Some(state) => {
                        state.selected_index = if state.selected_index >= 1 {
                            1
                        } else {
                            state.selected_index + 1
                        };
                    },
                    None => {},
                }
                None
            },
        }
    }
}


/// Relies on `std::path::Path::file_name`: the last component of `path`,
/// where there is one and it is valid text.
#[verifier::external_body]
fn path_file_name(path: &str) -> Option<String> {
    std::path::Path::new(path).file_name().and_then(|name| name.to_str()).map(|name| name.to_string())
}

/// What submitting the rename popup gives: the rename to carry out, or why
/// there is none.
pub open spec fn rename_submitted(a: App, r: Result<RenameRequest, String>) -> bool {
    match a.rename_popup_state {
        None => r is Err && r->Err_0@ == "Rename popup is not initialized"@,
        Some(s) => match s.item_to_rename {
            None => r is Err && r->Err_0@ == "No icon selected to rename."@,
            Some(item) => if is_blank(s.filename_input@) {
                r is Err && r->Err_0@ == "Please enter a new filename."@
            } else {
                r is Ok && r->Ok_0.item == item && r->Ok_0.new_filename@ == trimmed(
                    s.filename_input@,
                )
            },
        },
    }
}

impl App {
    /// Opens the rename popup for the highlighted icon, its current file
    /// name filled in.
    pub fn init_rename_popup(&mut self)
        ensures
            *final(self) == (App {
                app_focus: AppFocus::RenamePopup,
                rename_popup_state: final(self).rename_popup_state,
                ..*old(self)
            }),
            final(self).rename_popup_state is Some,
            final(self).rename_popup_state->0.item_to_rename == (if old(self).selected_index
                < old(self).filtered_items@.len() {
                Some(old(self).filtered_items@[old(self).selected_index as int])
            } else {
                None
            }),
            final(self).rename_popup_state->0.item_to_rename is None
                ==> final(self).rename_popup_state->0.filename_input@.len() == 0,
            final(self).rename_popup_state->0.status_message is None,
            !final(self).rename_popup_state->0.status_is_error,
    {
        self.app_focus = AppFocus::RenamePopup;
        let item = if self.selected_index < self.filtered_items.len() {
            Some(self.filtered_items[self.selected_index].duplicate())
        } else {
            None
        };
        let filename_input = match &item {
            Some(entry) => match path_file_name(entry.file_path.as_str()) {
                Some(name) => name,
                None => String::new(),
            },
            None => String::new(),
        };
        self.rename_popup_state = Some(
            RenamePopupState {
                item_to_rename: item,
                filename_input,
                status_message: None,
                status_is_error: false,
            },
        );
    }

    /// Closes the rename popup.
    pub fn close_rename_popup(&mut self)
        ensures
            *final(self) == (App {
                app_focus: AppFocus::Main,
                rename_popup_state: None,
                ..*old(self)
            }),
    {
        self.app_focus = AppFocus::Main;
        self.rename_popup_state = None;
    }

    /// Puts `value` in the rename popup's input and clears its status.
    pub fn edit_rename_input(&mut self, value: String)
        ensures
            old(self).rename_popup_state is None ==> *final(self) == *old(self),
            old(self).rename_popup_state is Some ==> *final(self) == (App {
                rename_popup_state: Some(
                    RenamePopupState {
                        filename_input: value,
                        status_message: None,
                        status_is_error: false,
                        ..old(self).rename_popup_state->0
                    },
                ),
                ..*old(self)
            }),
    {
        match &mut self.rename_popup_state {
            Some(state) => {
                state.filename_input = value;
                state.status_message = None;
                state.status_is_error = false;
            },
            None => {},
        }
    }

    /// The rename that the popup's input asks for.
    pub fn submit_rename_popup(&self) -> (r: Result<RenameRequest, String>)
        ensures
            rename_submitted(*self, r),
    {
        let state = match &self.rename_popup_state {
            Some(s) => s,
            None => {
                return Err(String::from_str("Rename popup is not initialized"));
            },
        };
        let item = match &state.item_to_rename {
            Some(item) => item.duplicate(),
            None => {
                return Err(String::from_str("No icon selected to rename."));
            },
        };
        let new_filename = trim_text(state.filename_input.as_str());
        proof {
            crate::text::lemma_blank_iff_all_white(state.filename_input@);
        }
        if new_filename.as_str().unicode_len() == 0 {
            return Err(String::from_str("Please enter a new filename."));
        }
        Ok(RenameRequest { item, new_filename })
    }

    /// Takes how the rename went: on success the icons are listed afresh and
    /// the popup closes; on failure the popup shows the error.
    pub fn rename_finished(&mut self, result: Result<Vec<IconEntry>, String>)
        ensures
            match result {
                Ok(icons) => {
                    &&& final(self).items == icons
                    &&& final(self).filtered_items@ == icons@
                    &&& *final(self) == (App {
                        items: final(self).items,
                        filtered_items: final(self).filtered_items,
                        app_focus: AppFocus::Main,
                        rename_popup_state: None,
                        ..*old(self)
                    })
                },
                Err(e) => old(self).rename_popup_state is Some ==> *final(self) == (App {
                    rename_popup_state: Some(
                        RenamePopupState {
                            status_message: Some(e),
                            status_is_error: true,
                            ..old(self).rename_popup_state->0
                        },
                    ),
                    ..*old(self)
                }),
            },
    {
        match result {
            Ok(icons) => {
                self.init_icons(icons);
                self.close_rename_popup();
            },
            Err(error) => match &mut self.rename_popup_state {
                Some(state) => {
                    state.status_message = Some(error);
                    state.status_is_error = true;
                },
                None => {},
            },
        }
    }
}


impl App {
    /// Gives the main list's filter the keyboard.
    pub fn init_search(&mut self)
        ensures
            *final(self) == (App { app_focus: AppFocus::Search, ..*old(self) }),
    {
        self.app_focus = AppFocus::Search;
    }

    /// Handles a key while the main list's filter has the keyboard: typing
    /// edits the filter and re-filters the list; Esc leaves and empties it;
    /// Enter leaves it.
    pub fn handlekeys_search(&mut self, key: SearchKey)
        ensures
            match key {
                SearchKey::Esc => *final(self) == (App {
                    app_focus: AppFocus::Main,
                    search_items_value: final(self).search_items_value,
                    ..*old(self)
                }) && final(self).search_items_value@.len() == 0,
                SearchKey::Enter => *final(self) == (App { app_focus: AppFocus::Main, ..*old(self) }),
                SearchKey::Char(c) => {
                    &&& final(self).search_items_value@ == old(self).search_items_value@.push(c)
                    &&& final(self).filtered_items@ == entries_matching(
                        old(self).items@,
                        final(self).search_items_value@,
                    )
                    &&& *final(self) == (App {
                        search_items_value: final(self).search_items_value,
                        filtered_items: final(self).filtered_items,
                        ..*old(self)
                    })
                },
                SearchKey::Backspace => {
                    &&& final(self).search_items_value@ == (if old(self).search_items_value@.len()
                        > 0 {
                        old(self).search_items_value@.drop_last()
                    } else {
                        old(self).search_items_value@
                    })
                    &&& final(self).filtered_items@ == entries_matching(
                        old(self).items@,
                        final(self).search_items_value@,
                    )
                    &&& *final(self) == (App {
                        search_items_value: final(self).search_items_value,
                        filtered_items: final(self).filtered_items,
                        ..*old(self)
                    })
                },
            },
    {
        match key {
            SearchKey::Esc => {
                self.app_focus = AppFocus::Main;
                self.search_items_value = String::new();
            },
            SearchKey::Enter => {
                self.app_focus = AppFocus::Main;
            },
            SearchKey::Char(c) => {
                push_char(&mut self.search_items_value, c);
                self.update_filtered_items();
            },
            SearchKey::Backspace => {
                pop_char(&mut self.search_items_value);
                self.update_filtered_items();
            },
        }
    }
}

} // verus!
