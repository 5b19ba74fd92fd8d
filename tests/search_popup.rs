use iconmate::app_state::{App, AppConfig, AppFocus};
use iconmate::browser::{AppEvent, IconifySearchPayload, PopupCommand, PopupKey};
use iconmate::catalog::{fuzzy_filter_collections, fuzzy_filter_icons, IconifyCollectionListItem};
use iconmate::popup::{IconifySearchPopupState, IconifySearchTab};
use iconmate::ranker::fuzzy_rank_indices;

fn test_app() -> App {
    let config = AppConfig {
        folder: "icons".to_string(),
        preset: "normal".to_string(),
        template: None,
        svg_viewer_cmd: None,
        svg_viewer_cmd_source: "test".to_string(),
        global_config_loaded: false,
        project_config_loaded: false,
    };
    App::new(config)
}

fn strings(v: &[&str]) -> Vec<String> {
    v.iter().map(|s| s.to_string()).collect()
}

fn item(prefix: &str, name: &str) -> IconifyCollectionListItem {
    IconifyCollectionListItem { prefix: prefix.to_string(), name: name.to_string(), total: Some(100) }
}

fn popup(app: &App) -> &IconifySearchPopupState {
    app.iconify_search_popup_state.as_ref().expect("iconify popup state should exist")
}

fn type_text(app: &mut App, text: &str, now: u64) {
    for c in text.chars() {
        assert!(app.handlekeys_iconify_search_popup(PopupKey::Char(c), now).is_none());
    }
}

#[test]
fn fuzzy_collections_support_non_substring_queries() {
    let collections = vec![item("lucide", "Lucide Icons"), item("mdi", "Material Design Icons")];
    let filtered = fuzzy_filter_collections(&collections, "lcd");
    assert_eq!(filtered.len(), 1);
    assert_eq!(filtered[0].prefix, "lucide");
}

#[test]
fn fuzzy_icon_filter_supports_non_substring_queries() {
    let icons = strings(&["lucide:bean", "lucide:beaker", "lucide:home"]);
    let filtered = fuzzy_filter_icons(&icons, "bn");
    assert_eq!(filtered, vec!["lucide:bean".to_string()]);
}

#[test]
fn rank_keeps_only_matching_candidates() {
    let icons = strings(&["lucide:bean", "lucide:beaker", "lucide:home"]);
    assert_eq!(fuzzy_rank_indices("bn", &icons), vec![0]);
}

#[test]
fn rank_with_blank_query_keeps_every_candidate_in_order() {
    let icons = strings(&["lucide:home", "lucide:bean", "mdi:heart"]);
    assert_eq!(fuzzy_rank_indices("", &icons), vec![0, 1, 2]);
    assert_eq!(fuzzy_rank_indices("   ", &icons), vec![0, 1, 2]);
    assert_eq!(fuzzy_filter_icons(&icons, ""), icons);
}

#[test]
fn rank_orders_by_score_then_index() {
    let icons = strings(&["mdi:house", "mdi:home", "lucide:home", "zz"]);
    let ranked = fuzzy_rank_indices("home", &icons);
    assert!(!ranked.contains(&3));
    assert!(ranked.contains(&1) && ranked.contains(&2));
    let again = fuzzy_rank_indices("home", &icons);
    assert_eq!(ranked, again);
}

#[test]
fn collection_icon_search_is_local_and_does_not_queue_remote_search() {
    let mut app = test_app();
    app.app_focus = AppFocus::IconifySearchPopup;

    let mut state = IconifySearchPopupState::new();
    state.active_tab = IconifySearchTab::Icons;
    state.selected_collection_filter = Some("lucide".to_string());
    state.collection_icons_prefix = Some("lucide".to_string());
    state.collection_icons = strings(&["lucide:bean", "lucide:beaker", "lucide:home"]);
    state.refresh_visible_icons();
    app.iconify_search_popup_state = Some(state);

    app.handlekeys_iconify_search_popup(PopupKey::Char('b'), 0);
    app.handlekeys_iconify_search_popup(PopupKey::Char('n'), 0);

    let state = popup(&app);
    assert_eq!(state.search_value, "bn");
    assert!(state.pending_search_query.is_none());
    assert!(!state.is_loading_search);
    assert_eq!(state.visible_icons, vec!["lucide:bean".to_string()]);
}

#[test]
fn global_icon_search_keeps_remote_query_flow() {
    let mut app = test_app();
    app.app_focus = AppFocus::IconifySearchPopup;

    let mut state = IconifySearchPopupState::new();
    state.active_tab = IconifySearchTab::Icons;
    app.iconify_search_popup_state = Some(state);

    app.handlekeys_iconify_search_popup(PopupKey::Char('h'), 0);

    let state = popup(&app);
    assert_eq!(state.pending_search_query.as_deref(), Some("h"));
    assert!(state.is_loading_search);
}

#[test]
fn j_and_k_type_into_search_input() {
    let mut app = test_app();
    app.app_focus = AppFocus::IconifySearchPopup;
    app.iconify_search_popup_state = Some(IconifySearchPopupState::new());

    app.handlekeys_iconify_search_popup(PopupKey::Char('j'), 0);
    app.handlekeys_iconify_search_popup(PopupKey::Char('k'), 0);

    assert_eq!(popup(&app).search_value, "jk");
}

#[test]
fn backspace_removes_the_last_character() {
    let mut app = test_app();
    app.init_iconify_search_popup();
    type_text(&mut app, "abc", 0);
    app.handlekeys_iconify_search_popup(PopupKey::Backspace, 0);
    assert_eq!(popup(&app).search_value, "ab");
}

fn open_on_icons_tab(app: &mut App) {
    app.init_iconify_search_popup();
    app.handlekeys_iconify_search_popup(PopupKey::Tab, 0);
    assert_eq!(popup(app).active_tab, IconifySearchTab::Icons);
}

#[test]
fn burst_of_keystrokes_sends_one_search_for_the_final_query() {
    let mut app = test_app();
    open_on_icons_tab(&mut app);
    let mut now = 1_000;
    for c in "home".chars() {
        app.handlekeys_iconify_search_popup(PopupKey::Char(c), now);
        assert!(app.tick_iconify_search_popup(now + 100).is_none());
        now += 200;
    }
    let last_key = now - 200;
    assert!(app.tick_iconify_search_popup(last_key + 279).is_none());
    let sent = app.tick_iconify_search_popup(last_key + 280);
    match sent {
        Some(PopupCommand::Search { query, .. }) => assert_eq!(query, "home"),
        other => panic!("expected one search, got {:?}", other),
    }
    assert!(app.tick_iconify_search_popup(last_key + 10_000).is_none());
}

#[test]
fn blank_query_is_never_sent() {
    let mut app = test_app();
    open_on_icons_tab(&mut app);
    type_text(&mut app, "  ", 0);
    assert!(popup(&app).pending_search_query.is_none());
    assert!(app.tick_iconify_search_popup(100_000).is_none());
}

#[test]
fn search_query_is_trimmed() {
    let mut app = test_app();
    open_on_icons_tab(&mut app);
    type_text(&mut app, " heart ", 0);
    assert_eq!(popup(&app).pending_search_query.as_deref(), Some("heart"));
}

#[test]
fn stale_search_completion_is_dropped() {
    let mut app = test_app();
    open_on_icons_tab(&mut app);
    type_text(&mut app, "ho", 0);
    let first = match app.tick_iconify_search_popup(1_000) {
        Some(PopupCommand::Search { request_id, .. }) => request_id,
        other => panic!("expected a search, got {:?}", other),
    };
    app.handlekeys_iconify_search_popup(PopupKey::Backspace, 2_000);
    app.handlekeys_iconify_search_popup(PopupKey::Char('o'), 2_000);
    let second = match app.tick_iconify_search_popup(3_000) {
        Some(PopupCommand::Search { request_id, .. }) => request_id,
        other => panic!("expected a search, got {:?}", other),
    };
    assert!(second > first);
    app.handle_app_event(AppEvent::IconifySearchLoaded {
        request_id: second,
        query: "ho".to_string(),
        result: Ok(IconifySearchPayload { icons: strings(&["mdi:home"]) }),
    });
    assert_eq!(popup(&app).visible_icons, strings(&["mdi:home"]));
    app.handle_app_event(AppEvent::IconifySearchLoaded {
        request_id: first,
        query: "ho".to_string(),
        result: Ok(IconifySearchPayload { icons: strings(&["mdi:hotel"]) }),
    });
    assert_eq!(popup(&app).visible_icons, strings(&["mdi:home"]));
    assert!(!popup(&app).is_loading_search);
}

#[test]
fn empty_search_result_is_not_an_error() {
    let mut app = test_app();
    open_on_icons_tab(&mut app);
    type_text(&mut app, "zz", 0);
    let id = match app.tick_iconify_search_popup(1_000) {
        Some(PopupCommand::Search { request_id, .. }) => request_id,
        other => panic!("expected a search, got {:?}", other),
    };
    app.handle_app_event(AppEvent::IconifySearchLoaded {
        request_id: id,
        query: "zz".to_string(),
        result: Ok(IconifySearchPayload { icons: Vec::new() }),
    });
    let state = popup(&app);
    assert_eq!(state.status_message.as_deref(), Some("No matching icons or collections."));
    assert!(!state.status_is_error);
}

#[test]
fn failed_search_sets_error_status() {
    let mut app = test_app();
    open_on_icons_tab(&mut app);
    type_text(&mut app, "zz", 0);
    let id = match app.tick_iconify_search_popup(1_000) {
        Some(PopupCommand::Search { request_id, .. }) => request_id,
        other => panic!("expected a search, got {:?}", other),
    };
    app.handle_app_event(AppEvent::IconifySearchLoaded {
        request_id: id,
        query: "zz".to_string(),
        result: Err("network down".to_string()),
    });
    let state = popup(&app);
    assert_eq!(state.status_message.as_deref(), Some("network down"));
    assert!(state.status_is_error);
}

fn loaded_collections(app: &mut App) {
    let id = match app.init_iconify_search_popup() {
        PopupCommand::FetchCollections { request_id } => request_id,
        other => panic!("expected a collections fetch, got {:?}", other),
    };
    assert_eq!(popup(app).status_message.as_deref(), Some("Loading collections..."));
    app.handle_app_event(AppEvent::IconifyCollectionsLoaded {
        request_id: id,
        result: Ok(vec![item("lucide", "Lucide Icons"), item("mdi", "Material Design Icons")]),
    });
    assert_eq!(popup(app).all_collections.len(), 2);
    assert!(!popup(app).is_loading_collections);
    assert!(popup(app).status_message.is_none());
}

#[test]
fn empty_collections_list_is_not_an_error() {
    let mut app = test_app();
    let id = match app.init_iconify_search_popup() {
        PopupCommand::FetchCollections { request_id } => request_id,
        other => panic!("expected a collections fetch, got {:?}", other),
    };
    app.handle_app_event(AppEvent::IconifyCollectionsLoaded { request_id: id, result: Ok(Vec::new()) });
    assert_eq!(popup(&app).status_message.as_deref(), Some("No Iconify collections found."));
    assert!(!popup(&app).status_is_error);
}

#[test]
fn collection_icons_are_fetched_once_per_prefix() {
    let mut app = test_app();
    loaded_collections(&mut app);
    let first = app.handlekeys_iconify_search_popup(PopupKey::Enter, 0);
    let id = match first {
        Some(PopupCommand::FetchCollectionIcons { request_id, prefix }) => {
            assert_eq!(prefix, "lucide");
            request_id
        }
        other => panic!("expected one icon fetch, got {:?}", other),
    };
    assert_eq!(
        popup(&app).status_message.as_deref(),
        Some("Loading icons for collection 'lucide'...")
    );
    app.handle_app_event(AppEvent::IconifyCollectionIconsLoaded {
        request_id: id,
        prefix: "lucide".to_string(),
        result: Ok(strings(&["lucide:bean", "lucide:home"])),
    });
    assert_eq!(popup(&app).visible_icons, strings(&["lucide:bean", "lucide:home"]));
    let before = app.next_async_request_id;
    app.handlekeys_iconify_search_popup(PopupKey::Tab, 0);
    assert_eq!(popup(&app).active_tab, IconifySearchTab::Collections);
    assert!(app.handlekeys_iconify_search_popup(PopupKey::Enter, 0).is_none());
    assert_eq!(app.next_async_request_id, before);
    assert_eq!(popup(&app).visible_icons, strings(&["lucide:bean", "lucide:home"]));
}

#[test]
fn switching_back_to_collections_clears_query_and_pending_search() {
    let mut app = test_app();
    open_on_icons_tab(&mut app);
    type_text(&mut app, "heart", 0);
    assert!(popup(&app).pending_search_query.is_some());
    app.handlekeys_iconify_search_popup(PopupKey::Tab, 0);
    let state = popup(&app);
    assert_eq!(state.active_tab, IconifySearchTab::Collections);
    assert_eq!(state.search_value, "");
    assert!(state.pending_search_query.is_none());
    assert!(state.debounce_deadline.is_none());
    assert!(app.tick_iconify_search_popup(100_000).is_none());
}

#[test]
fn reopening_resets_popup_but_ids_keep_growing() {
    let mut app = test_app();
    loaded_collections(&mut app);
    app.handlekeys_iconify_search_popup(PopupKey::Down, 0);
    assert_eq!(popup(&app).selected_collection_index, 1);
    let before = app.next_async_request_id;
    app.handlekeys_iconify_search_popup(PopupKey::Esc, 0);
    assert!(app.iconify_search_popup_state.is_none());
    assert_eq!(app.app_focus, AppFocus::Main);
    let id = match app.init_iconify_search_popup() {
        PopupCommand::FetchCollections { request_id } => request_id,
        other => panic!("expected a collections fetch, got {:?}", other),
    };
    assert!(id > before);
    let state = popup(&app);
    assert!(state.all_collections.is_empty());
    assert_eq!(state.selected_collection_index, 0);
    assert_eq!(state.selected_icon_index, 0);
}

#[test]
fn selection_wraps_around() {
    let mut app = test_app();
    loaded_collections(&mut app);
    app.handlekeys_iconify_search_popup(PopupKey::Up, 0);
    assert_eq!(popup(&app).selected_collection_index, 1);
    app.handlekeys_iconify_search_popup(PopupKey::Down, 0);
    assert_eq!(popup(&app).selected_collection_index, 0);
}

#[test]
fn typing_on_collections_tab_ranks_collections_without_a_search() {
    let mut app = test_app();
    loaded_collections(&mut app);
    type_text(&mut app, "mdi", 0);
    let state = popup(&app);
    assert_eq!(state.filtered_collections.len(), 1);
    assert_eq!(state.filtered_collections[0].prefix, "mdi");
    assert!(state.pending_search_query.is_none());
    assert!(app.tick_iconify_search_popup(100_000).is_none());
}

#[test]
fn enter_on_icon_stages_it_and_closes() {
    let mut app = test_app();
    loaded_collections(&mut app);
    let id = match app.handlekeys_iconify_search_popup(PopupKey::Enter, 0) {
        Some(PopupCommand::FetchCollectionIcons { request_id, .. }) => request_id,
        other => panic!("expected an icon fetch, got {:?}", other),
    };
    app.handle_app_event(AppEvent::IconifyCollectionIconsLoaded {
        request_id: id,
        prefix: "lucide".to_string(),
        result: Ok(strings(&["lucide:bean"])),
    });
    match app.handlekeys_iconify_search_popup(PopupKey::Enter, 0) {
        Some(PopupCommand::StageIconForAdd { icon_name }) => assert_eq!(icon_name, "lucide:bean"),
        other => panic!("expected the icon to be staged, got {:?}", other),
    }
    assert!(app.iconify_search_popup_state.is_none());
}

#[test]
fn enter_without_icon_reports_error() {
    let mut app = test_app();
    open_on_icons_tab(&mut app);
    assert!(app.handlekeys_iconify_search_popup(PopupKey::Enter, 0).is_none());
    assert_eq!(popup(&app).status_message.as_deref(), Some("No icon selected."));
    assert!(popup(&app).status_is_error);
}

#[test]
fn browser_shortcut_builds_explorer_url() {
    let mut app = test_app();
    loaded_collections(&mut app);
    let id = match app.handlekeys_iconify_search_popup(PopupKey::Enter, 0) {
        Some(PopupCommand::FetchCollectionIcons { request_id, .. }) => request_id,
        other => panic!("expected an icon fetch, got {:?}", other),
    };
    app.handle_app_event(AppEvent::IconifyCollectionIconsLoaded {
        request_id: id,
        prefix: "lucide".to_string(),
        result: Ok(strings(&["lucide:bean"])),
    });
    match app.handlekeys_iconify_search_popup(PopupKey::OpenInBrowser, 0) {
        Some(PopupCommand::OpenInBrowser { url }) => {
            assert_eq!(url, "https://icones.js.org/collection/lucide?icon=lucide:bean");
            app.browser_open_finished(&url, Ok(()));
        }
        other => panic!("expected a browser request, got {:?}", other),
    }
    assert_eq!(
        popup(&app).status_message.as_deref(),
        Some("Opened Icones page: https://icones.js.org/collection/lucide?icon=lucide:bean")
    );
    app.browser_open_finished("x", Err("no browser".to_string()));
    assert_eq!(popup(&app).status_message.as_deref(), Some("Failed to open browser: no browser"));
    assert!(popup(&app).status_is_error);
}

#[test]
fn failed_collection_icons_fetch_clears_cache() {
    let mut app = test_app();
    loaded_collections(&mut app);
    let id = match app.handlekeys_iconify_search_popup(PopupKey::Enter, 0) {
        Some(PopupCommand::FetchCollectionIcons { request_id, .. }) => request_id,
        other => panic!("expected an icon fetch, got {:?}", other),
    };
    app.handle_app_event(AppEvent::IconifyCollectionIconsLoaded {
        request_id: id,
        prefix: "lucide".to_string(),
        result: Err("timeout".to_string()),
    });
    let state = popup(&app);
    assert!(state.collection_icons_prefix.is_none());
    assert_eq!(state.status_message.as_deref(), Some("timeout"));
    assert!(state.status_is_error);
}

#[test]
fn empty_collection_reports_no_icons() {
    let mut app = test_app();
    loaded_collections(&mut app);
    let id = match app.handlekeys_iconify_search_popup(PopupKey::Enter, 0) {
        Some(PopupCommand::FetchCollectionIcons { request_id, .. }) => request_id,
        other => panic!("expected an icon fetch, got {:?}", other),
    };
    app.handle_app_event(AppEvent::IconifyCollectionIconsLoaded {
        request_id: id,
        prefix: "lucide".to_string(),
        result: Ok(Vec::new()),
    });
    assert_eq!(popup(&app).status_message.as_deref(), Some("No icons in this collection."));
    assert!(!popup(&app).status_is_error);
}

#[test]
fn next_request_id_grows() {
    let mut app = test_app();
    assert_eq!(app.next_request_id(), 1);
    assert_eq!(app.next_request_id(), 2);
    app.next_async_request_id = u64::MAX;
    assert_eq!(app.next_request_id(), u64::MAX);
}

#[test]
fn due_query_is_discarded_when_remote_search_no_longer_applies() {
    let mut app = test_app();
    open_on_icons_tab(&mut app);
    type_text(&mut app, "home", 0);
    let before = app.next_async_request_id;
    if let Some(state) = app.iconify_search_popup_state.as_mut() {
        state.active_tab = IconifySearchTab::Collections;
    }
    assert!(app.tick_iconify_search_popup(100).is_none());
    assert!(popup(&app).pending_search_query.is_some());
    assert!(app.tick_iconify_search_popup(1_000).is_none());
    let state = popup(&app);
    assert!(state.pending_search_query.is_none());
    assert!(state.debounce_deadline.is_none());
    assert!(!state.is_loading_search);
    assert_eq!(app.next_async_request_id, before);
}

#[test]
fn switching_collection_before_its_icons_land_does_not_reuse_the_old_cache() {
    let mut app = test_app();
    loaded_collections(&mut app);
    let first = match app.handlekeys_iconify_search_popup(PopupKey::Enter, 0) {
        Some(PopupCommand::FetchCollectionIcons { request_id, .. }) => request_id,
        other => panic!("expected an icon fetch, got {:?}", other),
    };
    app.handle_app_event(AppEvent::IconifyCollectionIconsLoaded {
        request_id: first,
        prefix: "lucide".to_string(),
        result: Ok(strings(&["lucide:bean"])),
    });
    app.handlekeys_iconify_search_popup(PopupKey::Tab, 0);
    app.handlekeys_iconify_search_popup(PopupKey::Down, 0);
    match app.handlekeys_iconify_search_popup(PopupKey::Enter, 0) {
        Some(PopupCommand::FetchCollectionIcons { prefix, .. }) => assert_eq!(prefix, "mdi"),
        other => panic!("expected an icon fetch, got {:?}", other),
    }
    assert!(popup(&app).collection_icons_prefix.is_none());
    app.handlekeys_iconify_search_popup(PopupKey::Tab, 0);
    app.handlekeys_iconify_search_popup(PopupKey::Up, 0);
    match app.handlekeys_iconify_search_popup(PopupKey::Enter, 0) {
        Some(PopupCommand::FetchCollectionIcons { prefix, .. }) => assert_eq!(prefix, "lucide"),
        other => panic!("expected lucide to be fetched again, got {:?}", other),
    }
    assert_eq!(popup(&app).selected_icon_index, 0);
}

#[test]
fn burst_after_a_blank_moment_still_sends_one_search() {
    let mut app = test_app();
    open_on_icons_tab(&mut app);
    assert!(app.tick_iconify_search_popup(10).is_none());
    type_text(&mut app, "a", 20);
    app.handlekeys_iconify_search_popup(PopupKey::Backspace, 100);
    assert!(app.tick_iconify_search_popup(150).is_none());
    type_text(&mut app, "x", 200);
    assert!(app.tick_iconify_search_popup(479).is_none());
    match app.tick_iconify_search_popup(480) {
        Some(PopupCommand::Search { query, .. }) => assert_eq!(query, "x"),
        other => panic!("expected one search, got {:?}", other),
    }
    assert!(app.tick_iconify_search_popup(5_000).is_none());
}
