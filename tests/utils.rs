use iconmate::utils::{
    _determine_icon_source_type, _parse_export_line, _make_svg_filename, filename_from_preset, parse_export_line_ts,
    presets_options, remove_export_lines, IconSourceType, Preset,
};

#[test]
fn preset_names_and_options() {
    assert_eq!(Preset::Svg.to_str(), "emptysvg");
    assert_eq!(Preset::Vue.to_str(), "vue");
    let options = presets_options();
    assert_eq!(options.len(), 5);
    assert_eq!(options[1].preset, Preset::React);
}

#[test]
fn filename_from_preset_adds_extension() {
    assert_eq!(filename_from_preset(Some("heart".to_string()), Some(Preset::React)), "heart.tsx");
    assert_eq!(filename_from_preset(Some("heart.svg".to_string()), Some(Preset::Vue)), "heart.svg");
    assert_eq!(filename_from_preset(None, Some(Preset::Svelte)), "component.svelte");
    assert_eq!(filename_from_preset(Some("x".to_string()), None), "x");
    assert_eq!(filename_from_preset(None, None), "");
}

#[test]
fn icon_source_kinds() {
    let svg = "  <svg></svg>".to_string();
    let url = "https://api.iconify.design/mdi:home.svg".to_string();
    let name = "stash:chevron".to_string();
    assert_eq!(_determine_icon_source_type(Some(&svg)), IconSourceType::SvgContent);
    assert_eq!(_determine_icon_source_type(Some(&url)), IconSourceType::Url);
    assert_eq!(_determine_icon_source_type(Some(&name)), IconSourceType::IconifyName);
    assert_eq!(_determine_icon_source_type(None), IconSourceType::Absent);
}

#[test]
fn svg_filename_prefers_stem_then_icon_name() {
    let stem = "custom.svg".to_string();
    assert_eq!(_make_svg_filename(Some(&stem), ".svg", None, "Heart"), ("custom".to_string(), ".svg"));
    let icon = "mdi:heart".to_string();
    assert_eq!(_make_svg_filename(None, ".svg", Some(&icon), "Heart"), ("mdi:heart".to_string(), ".svg"));
    let url = "https://x/y.svg".to_string();
    assert_eq!(_make_svg_filename(None, ".tsx", Some(&url), "HeartIcon"), ("hearticon".to_string(), ".tsx"));
}

#[test]
fn parses_export_lines() {
    let entry = parse_export_line_ts("  export { default as IconGitHub } from \"./devicon:github.svg\";  ")
        .expect("line should parse");
    assert_eq!(entry.name, "IconGitHub");
    assert_eq!(entry.file_path, "./devicon:github.svg");
    assert!(parse_export_line_ts("// export { default as IconX } from \"./x.svg\";").is_none());
    assert!(parse_export_line_ts("").is_none());
    assert!(parse_export_line_ts("export { default as IconX } from './x.svg';").is_none());
    assert!(parse_export_line_ts("export { default as IconX from \"./x.svg\";").is_none());
}

#[test]
fn removes_lines_that_export_the_file() {
    let contents = "export { default as IconAlpha } from './alpha.svg';\r\nexport { default as IconBeta } from './beta.svg';\n// keep\n";
    let (kept, found) = remove_export_lines(contents, "alpha.svg", "alpha");
    assert!(found);
    assert_eq!(kept, "export { default as IconBeta } from './beta.svg';\n// keep");
    let (loose, _) = remove_export_lines("export { default as IconB } from './b.svg';", "x.svg", "a");
    assert_eq!(loose, "");
    let (same, found) = remove_export_lines("line one\nline two", "z.svg", "zz");
    assert!(!found);
    assert_eq!(same, "line one\nline two");
    let (windows, found) = remove_export_lines("x from './sub/c.svg'", "sub\\c.svg", "qq");
    assert!(found);
    assert_eq!(windows, "");
}

#[test]
fn parses_single_quoted_export_lines() {
    let entry = _parse_export_line(
        "export { default as IconWallet } from './ic:baseline-account-balance-wallet.svg';",
    )
    .expect("line should parse");
    assert_eq!(entry.name, "Wallet");
    assert_eq!(entry.file_path, "ic:baseline-account-balance-wallet.svg");
    let react = _parse_export_line("export { default as IconHeart } from './heroicons:heart.svg?react';")
        .expect("line should parse");
    assert_eq!(react.file_path, "heroicons:heart.svg");
    assert!(_parse_export_line("export { default as Heart } from './h.svg';").is_none());
}
