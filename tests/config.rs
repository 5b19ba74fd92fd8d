use iconmate::config::{
    parse_global_value, parse_local_value, read_string_field, resolve_tui_config, ConfigEntry,
    ConfigValue, GlobalConfigFile, LoadedConfigFile, LocalConfigFile, DEFAULT_FOLDER,
    DEFAULT_OUTPUT_LINE_TEMPLATE,
};
use iconmate::utils::Preset;

fn text(key: &str, value: &str) -> ConfigEntry {
    ConfigEntry { key: key.to_string(), value: ConfigValue::Text(value.to_string()) }
}

#[test]
fn parses_global_svg_viewer_cmd_alias() {
    let value = vec![text("svg_viewer_cmd", "code %filename%")];
    let mut warnings = Vec::new();
    let parsed = parse_global_value(&value, "/tmp/iconmate.jsonc", &mut warnings).unwrap();
    assert_eq!(parsed.svg_viewer_cmd, Some("code %filename%".to_string()));
    assert!(warnings.is_empty());
}

#[test]
fn warns_on_unknown_global_key() {
    let value = vec![
        text("svg_view_cmd", "open %filename%"),
        ConfigEntry { key: "extra".to_string(), value: ConfigValue::Other },
    ];
    let mut warnings = Vec::new();
    let _ = parse_global_value(&value, "/tmp/iconmate.jsonc", &mut warnings).unwrap();
    assert_eq!(warnings.len(), 1);
    assert!(warnings[0].contains("Ignoring unknown key 'extra'"));
}

#[test]
fn validates_local_preset_values() {
    let value = vec![text("preset", "invalid")];
    let mut warnings = Vec::new();
    let error = parse_local_value(&value, "/tmp/iconmate.config.jsonc", &mut warnings)
        .expect_err("invalid preset should fail validation");
    assert!(error.contains("key 'preset' must be one of"));
}

#[test]
fn normalizes_empty_local_preset_to_normal_with_warning() {
    let value = vec![text("preset", "")];
    let mut warnings = Vec::new();
    let parsed = parse_local_value(&value, "/tmp/iconmate.config.jsonc", &mut warnings)
        .expect("empty preset should be normalized");

    assert_eq!(parsed.preset.as_deref(), Some("normal"));
    assert_eq!(warnings.len(), 1);
    assert!(warnings[0].contains("deprecated empty value"));
}

#[test]
fn string_settings_must_be_non_blank_strings() {
    let value = vec![
        text("folder", "  "),
        ConfigEntry { key: "output_line_template".to_string(), value: ConfigValue::Other },
    ];
    assert_eq!(
        read_string_field(&value, "p", "folder", false),
        Err("Invalid config at p: key 'folder' cannot be empty.".to_string())
    );
    assert_eq!(read_string_field(&value, "p", "folder", true), Ok(Some("  ".to_string())));
    assert_eq!(
        read_string_field(&value, "p", "output_line_template", false),
        Err("Invalid config at p: key 'output_line_template' must be a string.".to_string())
    );
    assert_eq!(read_string_field(&value, "p", "preset", false), Ok(None));
}

#[test]
fn both_viewer_names_warn_and_the_current_one_wins() {
    let value = vec![text("svg_view_cmd", "open"), text("svg_viewer_cmd", "code")];
    let mut warnings = Vec::new();
    let parsed = parse_local_value(&value, "p", &mut warnings).unwrap();
    assert_eq!(parsed.svg_viewer_cmd.as_deref(), Some("code"));
    assert_eq!(
        warnings,
        vec!["Both 'svg_view_cmd' and 'svg_viewer_cmd' are set in p; using 'svg_viewer_cmd'."]
    );
}

#[test]
fn command_line_beats_project_file_and_defaults_fill_the_rest() {
    let local = LoadedConfigFile {
        path: "/p/iconmate.json".to_string(),
        value: LocalConfigFile {
            folder: Some("from/file".to_string()),
            preset: Some("react".to_string()),
            output_line_template: None,
            svg_viewer_cmd: None,
        },
    };
    let global = LoadedConfigFile {
        path: "/home/iconmate.json".to_string(),
        value: GlobalConfigFile { svg_viewer_cmd: Some("code".to_string()) },
    };
    let cli_folder = "cli/folder".to_string();
    let resolved = resolve_tui_config(
        Some(&cli_folder),
        Some(&Preset::Vue),
        None,
        Some(&local),
        Some(&global),
        vec!["w".to_string()],
    );
    assert_eq!(resolved.folder, "cli/folder");
    assert_eq!(resolved.preset, "vue");
    assert_eq!(resolved.output_line_template, DEFAULT_OUTPUT_LINE_TEMPLATE);
    assert_eq!(resolved.svg_viewer_cmd.as_deref(), Some("code"));
    assert_eq!(resolved.svg_viewer_cmd_source, "global config (/home/iconmate.json)");
    assert!(resolved.global_config_loaded && resolved.project_config_loaded);
    assert_eq!(resolved.warnings, vec!["w".to_string()]);
    assert_eq!(
        resolved.info,
        vec![
            "Loaded local config from /p/iconmate.json".to_string(),
            "Loaded global config from /home/iconmate.json".to_string(),
            "Resolved svg_viewer_cmd source: global config (/home/iconmate.json)".to_string(),
        ]
    );

    let bare = resolve_tui_config(None, None, None, None, None, Vec::new());
    assert_eq!(bare.folder, DEFAULT_FOLDER);
    assert_eq!(bare.preset, "normal");
    assert_eq!(bare.svg_viewer_cmd_source, "OS default");
}
