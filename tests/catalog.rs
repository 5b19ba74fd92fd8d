use std::collections::HashMap;

use iconmate::app_state::{App, AppConfig};
use iconmate::catalog::{merge_collection_icons, IconifyCollectionMeta};
use iconmate::text::{contains_text, trim_text};
use iconmate::utils::IconEntry;

#[test]
fn merge_icons_from_uncategorized_and_categories() {
    let categories = HashMap::from([
        ("Actions".to_string(), vec!["home".to_string(), "heart".to_string()]),
        ("Shapes".to_string(), vec!["star".to_string(), "home".to_string()]),
    ]);
    let groups: Vec<Vec<String>> = categories.values().cloned().collect();

    let merged = merge_collection_icons(
        Vec::new(),
        Some(&vec!["orphan".to_string(), "home".to_string()]),
        Some(&groups),
    );

    assert!(merged.contains(&"orphan".to_string()));
    assert!(merged.contains(&"home".to_string()));
    assert!(merged.contains(&"heart".to_string()));
    assert!(merged.contains(&"star".to_string()));
    assert_eq!(merged.iter().filter(|icon| icon.as_str() == "home").count(), 1);
}

#[test]
fn merge_keeps_first_occurrence_order() {
    let merged = merge_collection_icons(
        vec!["b".to_string(), "a".to_string(), "b".to_string()],
        None,
        Some(&vec![vec!["c".to_string(), "a".to_string()], vec!["d".to_string()]]),
    );
    assert_eq!(merged, vec!["b", "a", "c", "d"]);
}

#[test]
fn display_name_prefers_name_then_title() {
    let named = IconifyCollectionMeta {
        name: Some("Material Design Icons".to_string()),
        title: Some("MDI".to_string()),
        total: Some(7447),
    };
    assert_eq!(named.display_name("mdi"), "Material Design Icons");
    let titled = IconifyCollectionMeta { name: None, title: Some("Heroicons".to_string()), total: None };
    assert_eq!(titled.display_name("heroicons"), "Heroicons");
    assert_eq!(IconifyCollectionMeta::default().display_name("x"), "x");
}

#[test]
fn trims_unicode_white_space() {
    assert_eq!(trim_text("\u{3000} a b \t\n"), "a b");
    assert_eq!(trim_text("   "), "");
    assert!(contains_text("lucide:bean", "e:b"));
    assert!(!contains_text("bean", "beans"));
}

#[test]
fn main_list_filter_ignores_case() {
    let config = AppConfig {
        folder: "icons".to_string(),
        preset: "normal".to_string(),
        template: None,
        svg_viewer_cmd: None,
        svg_viewer_cmd_source: "test".to_string(),
        global_config_loaded: false,
        project_config_loaded: false,
    };
    let mut app = App::new(config);
    app.init_icons(vec![
        IconEntry { name: "IconHeart".to_string(), file_path: "./heart.svg".to_string() },
        IconEntry { name: "IconStar".to_string(), file_path: "./star.svg".to_string() },
    ]);
    assert_eq!(app.filtered_items.len(), 2);
    app.search_items_value = "HEA".to_string();
    app.update_filtered_items();
    assert_eq!(app.filtered_items.len(), 1);
    assert_eq!(app.filtered_items[0].name, "IconHeart");
    app.selected_index = 0;
    app.init_delete_popup();
    let state = app.delete_popup_state.as_ref().expect("delete popup should be open");
    assert_eq!(state.item_to_delete.as_ref().map(|e| e.name.as_str()), Some("IconHeart"));
}
