use iconmate::app_state::{App, AppConfig, AppFocus, DeleteKey, SearchKey};
use iconmate::utils::IconEntry;

fn app_with_icons() -> App {
    let config = AppConfig {
        folder: "icons".to_string(),
        preset: "normal".to_string(),
        template: None,
        svg_viewer_cmd: None,
        svg_viewer_cmd_source: "test".to_string(),
        global_config_loaded: false,
        project_config_loaded: false,
    };
    let mut app = App::new(config);
    app.init_icons(vec![
        IconEntry { name: "IconA".to_string(), file_path: "./a.svg".to_string() },
        IconEntry { name: "IconB".to_string(), file_path: "./b.svg".to_string() },
        IconEntry { name: "IconC".to_string(), file_path: "./c.svg".to_string() },
    ]);
    app
}

#[test]
fn main_selection_wraps() {
    let mut app = app_with_icons();
    app.move_main_selection(false);
    assert_eq!(app.selected_index, 2);
    app.move_main_selection(true);
    assert_eq!(app.selected_index, 0);
    app.move_main_selection(true);
    assert_eq!(app.selected_index, 1);
}

#[test]
fn delete_confirmation_flow() {
    let mut app = app_with_icons();
    app.selected_index = 1;
    app.init_delete_popup();
    assert_eq!(app.app_focus, AppFocus::DeletePopup);
    assert!(app.handlekeys_delete_popup(DeleteKey::Down).is_none());
    assert!(app.handlekeys_delete_popup(DeleteKey::Enter).is_none());
    assert!(app.delete_popup_state.is_none());
    assert_eq!(app.app_focus, AppFocus::Main);

    app.init_delete_popup();
    let chosen = app.handlekeys_delete_popup(DeleteKey::Yes).expect("icon should be chosen");
    assert_eq!(chosen.name, "IconB");
    assert!(app.delete_popup_state.is_none());
}

#[test]
fn help_popup_takes_focus() {
    let mut app = app_with_icons();
    app.init_help_popup();
    assert_eq!(app.app_focus, AppFocus::HelpPopup);
    app.update();
    assert_eq!(app.app_focus, AppFocus::HelpPopup);
}

#[test]
fn rename_popup_validates_input() {
    let mut app = app_with_icons();
    assert_eq!(app.submit_rename_popup().unwrap_err(), "Rename popup is not initialized");
    app.selected_index = 2;
    app.init_rename_popup();
    assert_eq!(app.app_focus, AppFocus::RenamePopup);
    let state = app.rename_popup_state.as_ref().expect("rename popup should be open");
    assert_eq!(state.filename_input, "c.svg");
    app.edit_rename_input("   ".to_string());
    assert_eq!(app.submit_rename_popup().unwrap_err(), "Please enter a new filename.");
    app.edit_rename_input(" renamed.svg ".to_string());
    let request = app.submit_rename_popup().expect("rename should be requested");
    assert_eq!(request.item.name, "IconC");
    assert_eq!(request.new_filename, "renamed.svg");
    app.rename_finished(Err("disk full".to_string()));
    let state = app.rename_popup_state.as_ref().expect("rename popup should stay open");
    assert_eq!(state.status_message.as_deref(), Some("disk full"));
    assert!(state.status_is_error);
    app.rename_finished(Ok(Vec::new()));
    assert!(app.rename_popup_state.is_none());
    assert!(app.items.is_empty());
    assert_eq!(app.app_focus, AppFocus::Main);
}

#[test]
fn rename_without_icon_is_refused() {
    let mut app = app_with_icons();
    app.selected_index = 7;
    app.init_rename_popup();
    assert_eq!(app.submit_rename_popup().unwrap_err(), "No icon selected to rename.");
}

#[test]
fn typing_in_main_search_filters_list() {
    let mut app = app_with_icons();
    app.init_search();
    assert_eq!(app.app_focus, AppFocus::Search);
    app.handlekeys_search(SearchKey::Char('N'));
    app.handlekeys_search(SearchKey::Char('c'));
    assert_eq!(app.search_items_value, "Nc");
    assert_eq!(app.filtered_items.len(), 1);
    assert_eq!(app.filtered_items[0].name, "IconC");
    app.handlekeys_search(SearchKey::Backspace);
    assert_eq!(app.filtered_items.len(), 3);
    app.handlekeys_search(SearchKey::Char('a'));
    app.handlekeys_search(SearchKey::Esc);
    assert_eq!(app.app_focus, AppFocus::Main);
    assert_eq!(app.search_items_value, "");
}
