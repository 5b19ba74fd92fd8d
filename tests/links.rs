use iconmate::links::{icones_collection_url, iconify_web_preview_url, web_preview_url_for_stem};

#[test]
fn builds_iconify_web_preview_url_from_iconify_stem() {
    assert_eq!(
        iconify_web_preview_url("/tmp/mdi:heart.svg"),
        Some("https://api.iconify.design/mdi%3Aheart.svg".to_string())
    );
}

#[test]
fn returns_none_for_non_iconify_stem() {
    assert_eq!(iconify_web_preview_url("/tmp/logo.svg"), None);
}

#[test]
fn preview_url_needs_prefix_and_name() {
    assert_eq!(web_preview_url_for_stem(":heart"), None);
    assert_eq!(web_preview_url_for_stem("mdi:"), None);
    assert_eq!(
        web_preview_url_for_stem("a:b:c"),
        Some("https://api.iconify.design/a%3Ab%3Ac.svg".to_string())
    );
}

#[test]
fn builds_icones_collection_url_for_iconify_name() {
    assert_eq!(
        icones_collection_url("lucide:bean"),
        Some("https://icones.js.org/collection/lucide?icon=lucide:bean".to_string())
    );
}

#[test]
fn returns_none_for_invalid_icon_name() {
    assert_eq!(icones_collection_url("bean"), None);
}
