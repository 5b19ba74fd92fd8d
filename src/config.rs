//! Reading the project and user configuration files once they are parsed,
//! and settling each setting from the command line, the files and defaults.

use vstd::prelude::*;
use vstd::string::*;
use crate::text::{is_blank, text_eq, text_is_blank};
use crate::utils::{preset_name, Preset};

verus! {

/// The folder icons go to when nothing else says.
pub const DEFAULT_FOLDER: &'static str = "src/assets/icons";

/// The export line written for a new icon when nothing else says.
pub const DEFAULT_OUTPUT_LINE_TEMPLATE: &'static str =
    "export { default as Icon%name% } from './%icon%%ext%';";

/// A value of a configuration file, as far as the settings read it.
#[derive(Debug, Clone)]
pub enum ConfigValue {
    Text(String),
    /// Any value that is not a string.
    Other,
}

/// One key of a configuration file's top-level object.
#[derive(Debug, Clone)]
pub struct ConfigEntry {
    pub key: String,
    pub value: ConfigValue,
}

/// The settings of a project configuration file.
#[derive(Debug, Clone, Default)]
pub struct LocalConfigFile {
    pub folder: Option<String>,
    pub preset: Option<String>,
    pub output_line_template: Option<String>,
    pub svg_viewer_cmd: Option<String>,
}

/// The settings of a user configuration file.
#[derive(Debug, Clone, Default)]
pub struct GlobalConfigFile {
    pub svg_viewer_cmd: Option<String>,
}

/// A configuration file that was found, with where it was found.
#[derive(Debug, Clone)]
pub struct LoadedConfigFile<T> {
    pub path: String,
    pub value: T,
}

/// The settings the terminal interface runs with.
#[derive(Debug, Clone)]
pub struct ResolvedTuiConfig {
    pub folder: String,
    pub preset: String,
    pub output_line_template: String,
    pub svg_viewer_cmd: Option<String>,
    pub svg_viewer_cmd_source: String,
    pub global_config_loaded: bool,
    pub project_config_loaded: bool,
    pub warnings: Vec<String>,
    pub info: Vec<String>,
}

/// The value of the first entry named `key`.
pub open spec fn lookup(entries: Seq<ConfigEntry>, key: Seq<char>) -> Option<ConfigValue>
    decreases entries.len(),
{
    if entries.len() == 0 {
        None
    } else if entries[0].key@ == key {
        Some(entries[0].value)
    } else {
        lookup(entries.drop_first(), key)
    }
}

/// The error for a key whose value is not a string.
pub open spec fn not_string_error(path: Seq<char>, key: Seq<char>) -> Seq<char> {
    "Invalid config at "@ + path + ": key '"@ + key + "' must be a string."@
}

/// The error for a key whose value is blank.
pub open spec fn empty_error(path: Seq<char>, key: Seq<char>) -> Seq<char> {
    "Invalid config at "@ + path + ": key '"@ + key + "' cannot be empty."@
}

/// What reading the string setting `key` gives: nothing where it is absent,
/// an error where it is not a string or, unless `allow_empty`, blank.
pub open spec fn string_field(
    entries: Seq<ConfigEntry>,
    path: Seq<char>,
    key: Seq<char>,
    allow_empty: bool,
) -> Result<Option<Seq<char>>, Seq<char>> {
    match lookup(entries, key) {
        None => Ok(None),
        Some(ConfigValue::Other) => Err(not_string_error(path, key)),
        Some(ConfigValue::Text(v)) => if !allow_empty && is_blank(v@) {
            Err(empty_error(path, key))
        } else {
            Ok(Some(v@))
        },
    }
}

/// The view of a result that holds an optional string or an error text.
pub open spec fn field_view(r: Result<Option<String>, String>) -> Result<Option<Seq<char>>, Seq<char>> {
    match r {
        Ok(Some(v)) => Ok(Some(v@)),
        Ok(None) => Ok(None),
        Err(e) => Err(e@),
    }
}

/// The value of the first entry named `key`.
fn find_entry<'a>(entries: &'a [ConfigEntry], key: &str) -> (r: Option<&'a ConfigValue>)
    ensures
        match r {
            Some(v) => lookup(entries@, key@) == Some(*v),
            None => lookup(entries@, key@) is None,
        },
{
    let mut i: usize = 0;
    assert(entries@.skip(0) =~= entries@);
    while i < entries.len()
        invariant
            i <= entries@.len(),
            lookup(entries@, key@) == lookup(entries@.skip(i as int), key@),
        decreases entries@.len() - i,
    {
        assert(entries@.skip(i as int).drop_first() =~= entries@.skip(i + 1));
        if text_eq(entries[i].key.as_str(), key) {
            return Some(&entries[i].value);
        }
        i = i + 1;
    }
    None
}

/// Reads the string setting `key` of the file at `path`.
pub fn read_string_field(entries: &[ConfigEntry], path: &str, key: &str, allow_empty: bool) -> (r:
    Result<Option<String>, String>)
    ensures
        field_view(r) == string_field(entries@, path@, key@, allow_empty),
{
    match find_entry(entries, key) {
        None => Ok(None),
        Some(ConfigValue::Other) => {
            let mut m = String::from_str("Invalid config at ");
            m.append(path);
            m.append(": key '");
            m.append(key);
            m.append("' must be a string.");
            Err(m)
        },
        Some(ConfigValue::Text(v)) => {
            if !allow_empty && text_is_blank(v.as_str()) {
                let mut m = String::from_str("Invalid config at ");
                m.append(path);
                m.append(": key '");
                m.append(key);
                m.append("' cannot be empty.");
                Err(m)
            } else {
                Ok(Some(v.clone()))
            }
        },
    }
}

/// The view of an optional string.
pub open spec fn opt_view(o: Option<String>) -> Option<Seq<char>> {
    match o {
        Some(s) => Some(s@),
        None => None,
    }
}

/// The views of a list of strings.
pub open spec fn views(v: Seq<String>) -> Seq<Seq<char>> {
    v.map_values(|s: String| s@)
}

/// The warning for setting the viewer command under both of its names.
pub open spec fn both_names_warning(path: Seq<char>) -> Seq<char> {
    "Both 'svg_view_cmd' and 'svg_viewer_cmd' are set in "@ + path
        + "; using 'svg_viewer_cmd'."@
}

/// The viewer command a file sets, under its current name or its older one;
/// the current name wins.
pub open spec fn viewer_cmd_field(entries: Seq<ConfigEntry>, path: Seq<char>) -> Result<
    Option<Seq<char>>,
    Seq<char>,
> {
    match string_field(entries, path, "svg_view_cmd"@, false) {
        Err(e) => Err(e),
        Ok(legacy) => match string_field(entries, path, "svg_viewer_cmd"@, false) {
            Err(e) => Err(e),
            Ok(modern) => Ok(
                if modern is Some {
                    modern
                } else {
                    legacy
                },
            ),
        },
    }
}

/// The warnings reading the viewer command adds: one where both names are
/// set to different commands.
pub open spec fn viewer_cmd_warnings(entries: Seq<ConfigEntry>, path: Seq<char>) -> Seq<
    Seq<char>,
> {
    match (
        string_field(entries, path, "svg_view_cmd"@, false),
        string_field(entries, path, "svg_viewer_cmd"@, false),
    ) {
        (Ok(Some(a)), Ok(Some(b))) => if a != b {
            seq![both_names_warning(path)]
        } else {
            Seq::empty()
        },
        _ => Seq::empty(),
    }
}

/// Reads the viewer command of the file at `path`.
pub fn read_svg_viewer_cmd(entries: &[ConfigEntry], path: &str, warnings: &mut Vec<String>) -> (r:
    Result<Option<String>, String>)
    ensures
        field_view(r) == viewer_cmd_field(entries@, path@),
        views(final(warnings)@) == views(old(warnings)@) + viewer_cmd_warnings(entries@, path@),
{
    let ghost before = views(warnings@);
    proof {
        reveal_strlit("svg_view_cmd");
        reveal_strlit("svg_viewer_cmd");
    }
    let legacy = match read_string_field(entries, path, "svg_view_cmd", false) {
        Ok(v) => v,
        Err(e) => {
            assert(views(warnings@) =~= before + viewer_cmd_warnings(entries@, path@));
            return Err(e);
        },
    };
    let modern = match read_string_field(entries, path, "svg_viewer_cmd", false) {
        Ok(v) => v,
        Err(e) => {
            assert(views(warnings@) =~= before + viewer_cmd_warnings(entries@, path@));
            return Err(e);
        },
    };
    match (legacy, modern) {
        (Some(old_value), Some(new_value)) => {
            if !text_eq(old_value.as_str(), new_value.as_str()) {
                let mut m = String::from_str("Both 'svg_view_cmd' and 'svg_viewer_cmd' are set in ");
                m.append(path);
                m.append("; using 'svg_viewer_cmd'.");
                warnings.push(m);
            }
            assert(views(warnings@) =~= before + viewer_cmd_warnings(entries@, path@));
            Ok(Some(new_value))
        },
        (Some(value), None) => {
            assert(views(warnings@) =~= before + viewer_cmd_warnings(entries@, path@));
            Ok(Some(value))
        },
        (None, Some(value)) => {
            assert(views(warnings@) =~= before + viewer_cmd_warnings(entries@, path@));
            Ok(Some(value))
        },
        (None, None) => {
            assert(views(warnings@) =~= before + viewer_cmd_warnings(entries@, path@));
            Ok(None)
        },
    }
}

/// The warning for a key the file should not hold.
pub open spec fn unknown_key_warning(key: Seq<char>, path: Seq<char>) -> Seq<char> {
    "Ignoring unknown key '"@ + key + "' in "@ + path
}

/// Whether `key` is among `allowed`.
pub open spec fn is_allowed(allowed: Seq<&str>, key: Seq<char>) -> bool {
    exists|i: int| 0 <= i < allowed.len() && allowed[i]@ == key
}

/// One warning for each entry whose key is not allowed, in order.
pub open spec fn unknown_key_warnings(
    entries: Seq<ConfigEntry>,
    allowed: Seq<&str>,
    path: Seq<char>,
) -> Seq<Seq<char>>
    decreases entries.len(),
{
    if entries.len() == 0 {
        Seq::empty()
    } else {
        let rest = unknown_key_warnings(entries.drop_last(), allowed, path);
        if is_allowed(allowed, entries.last().key@) {
            rest
        } else {
            rest.push(unknown_key_warning(entries.last().key@, path))
        }
    }
}

/// Adds a warning for each key of the file at `path` that is not allowed.
pub fn warn_unknown_keys(
    entries: &[ConfigEntry],
    allowed: &[&str],
    path: &str,
    warnings: &mut Vec<String>,
)
    ensures
        views(final(warnings)@) == views(old(warnings)@) + unknown_key_warnings(
            entries@,
            allowed@,
            path@,
        ),
{
    let ghost before = views(warnings@);
    let mut i: usize = 0;
    while i < entries.len()
        invariant
            i <= entries@.len(),
            views(warnings@) == before + unknown_key_warnings(
                entries@.take(i as int),
                allowed@,
                path@,
            ),
        decreases entries@.len() - i,
    {
        let key = entries[i].key.as_str();
        let mut known = false;
        let mut j: usize = 0;
        while j < allowed.len()
            invariant
                j <= allowed@.len(),
                known == exists|t: int| 0 <= t < j && allowed@[t]@ == key@,
            decreases allowed@.len() - j,
        {
            if text_eq(allowed[j], key) {
                known = true;
            }
            j = j + 1;
        }
        assert(entries@.take(i + 1).drop_last() =~= entries@.take(i as int));
        assert(entries@.take(i + 1).last() == entries@[i as int]);
        assert(known == is_allowed(allowed@, key@));
        let ghost w0 = warnings@;
        if !known {
            let mut m = String::from_str("Ignoring unknown key '");
            m.append(key);
            m.append("' in ");
            m.append(path);
            warnings.push(m);
            assert(views(warnings@) =~= views(w0).push(unknown_key_warning(key@, path@)));
        }
        i = i + 1;
        assert(views(warnings@) =~= before + unknown_key_warnings(
            entries@.take(i as int),
            allowed@,
            path@,
        ));
    }
    assert(entries@.take(entries@.len() as int) =~= entries@);
}

/// The settings a project file holds.
pub struct LocalSettings {
    pub folder: Option<Seq<char>>,
    pub preset: Option<Seq<char>>,
    pub output_line_template: Option<Seq<char>>,
    pub svg_viewer_cmd: Option<Seq<char>>,
}

/// The keys a project file may hold.
pub open spec fn local_keys() -> Seq<&'static str> {
    seq!["folder", "preset", "output_line_template", "svg_view_cmd", "svg_viewer_cmd"]
}

/// The keys a user file may hold.
pub open spec fn global_keys() -> Seq<&'static str> {
    seq!["svg_view_cmd", "svg_viewer_cmd"]
}

/// The preset values a project file may name: `normal`, the plain flow, or
/// the name of a preset.
pub open spec fn is_known_preset(v: Seq<char>) -> bool {
    v == "normal"@ || v == preset_name(Preset::Svg) || v == preset_name(Preset::React) || v
        == preset_name(Preset::Svelte) || v == preset_name(Preset::Solid) || v == preset_name(
        Preset::Vue,
    )
}

/// The error for a preset value that names no preset.
pub open spec fn bad_preset_error(path: Seq<char>, v: Seq<char>) -> Seq<char> {
    "Invalid config at "@ + path
        + ": key 'preset' must be one of [normal, emptysvg, react, svelte, solid, vue], got '"@ + v
        + "'."@
}

/// The warning for the old empty preset value.
pub open spec fn empty_preset_warning(path: Seq<char>) -> Seq<char> {
    "Config key 'preset' in "@ + path + " uses deprecated empty value; use 'normal' instead."@
}

/// The preset a project file sets: an empty value stands for `normal`, and
/// a value that names no preset is an error.
pub open spec fn preset_field(entries: Seq<ConfigEntry>, path: Seq<char>) -> Result<
    Option<Seq<char>>,
    Seq<char>,
> {
    match string_field(entries, path, "preset"@, true) {
        Err(e) => Err(e),
        Ok(None) => Ok(None),
        Ok(Some(v)) => {
            let w = if v.len() == 0 {
                "normal"@
            } else {
                v
            };
            if is_known_preset(w) {
                Ok(Some(w))
            } else {
                Err(bad_preset_error(path, w))
            }
        },
    }
}

/// The settings of a project file, or the first error in it: `folder`,
/// `preset`, `output_line_template`, then the viewer command.
pub open spec fn local_settings(entries: Seq<ConfigEntry>, path: Seq<char>) -> Result<
    LocalSettings,
    Seq<char>,
> {
    match string_field(entries, path, "folder"@, false) {
        Err(e) => Err(e),
        Ok(folder) => match preset_field(entries, path) {
            Err(e) => Err(e),
            Ok(preset) => match string_field(entries, path, "output_line_template"@, false) {
                Err(e) => Err(e),
                Ok(output_line_template) => match viewer_cmd_field(entries, path) {
                    Err(e) => Err(e),
                    Ok(svg_viewer_cmd) => Ok(
                        LocalSettings { folder, preset, output_line_template, svg_viewer_cmd },
                    ),
                },
            },
        },
    }
}

/// The warnings reading a sound project file gives: unknown keys, the old
/// empty preset, then a viewer command set under both names.
pub open spec fn local_warnings(entries: Seq<ConfigEntry>, path: Seq<char>) -> Seq<Seq<char>> {
    unknown_key_warnings(entries, local_keys(), path) + (if string_field(
        entries,
        path,
        "preset"@,
        true,
    ) == Ok::<Option<Seq<char>>, Seq<char>>(Some(Seq::empty())) {
        seq![empty_preset_warning(path)]
    } else {
        Seq::empty()
    }) + viewer_cmd_warnings(entries, path)
}

/// The view of a parsed project file.
pub open spec fn local_view(c: LocalConfigFile) -> LocalSettings {
    LocalSettings {
        folder: opt_view(c.folder),
        preset: opt_view(c.preset),
        output_line_template: opt_view(c.output_line_template),
        svg_viewer_cmd: opt_view(c.svg_viewer_cmd),
    }
}

/// Reads the settings of the project file at `path`.
pub fn parse_local_value(entries: &[ConfigEntry], path: &str, warnings: &mut Vec<String>) -> (r:
    Result<LocalConfigFile, String>)
    ensures
        match (r, local_settings(entries@, path@)) {
            (Ok(c), Ok(v)) => local_view(c) == v && views(final(warnings)@) == views(
                old(warnings)@,
            ) + local_warnings(entries@, path@),
            (Err(e), Err(m)) => e@ == m,
            _ => false,
        },
{
    proof {
        reveal_strlit("folder");
        reveal_strlit("preset");
        reveal_strlit("output_line_template");
        reveal_strlit("svg_view_cmd");
        reveal_strlit("svg_viewer_cmd");
        reveal_strlit("normal");
    }
    let ghost before = views(warnings@);
    let allowed: [&str; 5] = [
        "folder",
        "preset",
        "output_line_template",
        "svg_view_cmd",
        "svg_viewer_cmd",
    ];
    assert(allowed@ =~= local_keys());
    warn_unknown_keys(entries, &allowed, path, warnings);
    let ghost after_keys = views(warnings@);
    let folder = match read_string_field(entries, path, "folder", false) {
        Ok(v) => v,
        Err(e) => {
            return Err(e);
        },
    };
    let mut preset = match read_string_field(entries, path, "preset", true) {
        Ok(v) => v,
        Err(e) => {
            return Err(e);
        },
    };
    let ghost raw_preset = opt_view(preset);
    let is_empty = match &preset {
        Some(v) => {
            let e = v.as_str().unicode_len() == 0;
            if e {
                assert(v@ =~= Seq::<char>::empty());
            }
            e
        },
        None => false,
    };
    assert(is_empty == (raw_preset == Some(Seq::<char>::empty())));
    if is_empty {
        let mut m = String::from_str("Config key 'preset' in ");
        m.append(path);
        m.append(" uses deprecated empty value; use 'normal' instead.");
        warnings.push(m);
        assert(views(warnings@) =~= after_keys.push(empty_preset_warning(path@)));
        preset = Some(String::from_str("normal"));
    } else {
        assert(views(warnings@) =~= after_keys + Seq::<Seq<char>>::empty());
    }
    let ghost after_preset = views(warnings@);
    match &preset {
        Some(v) => {
            if !is_preset_value(v.as_str()) {
                let mut m = String::from_str("Invalid config at ");
                m.append(path);
                m.append(
                    ": key 'preset' must be one of [normal, emptysvg, react, svelte, solid, vue], got '",
                );
                m.append(v.as_str());
                m.append("'.");
                return Err(m);
            }
        },
        None => {},
    }
    let output_line_template = match read_string_field(
        entries,
        path,
        "output_line_template",
        false,
    ) {
        Ok(v) => v,
        Err(e) => {
            return Err(e);
        },
    };
    let svg_viewer_cmd = match read_svg_viewer_cmd(entries, path, warnings) {
        Ok(v) => v,
        Err(e) => {
            return Err(e);
        },
    };
    assert(views(warnings@) =~= before + local_warnings(entries@, path@));
    Ok(LocalConfigFile { folder, preset, output_line_template, svg_viewer_cmd })
}

/// Whether `v` is a preset value a project file may name.
fn is_preset_value(v: &str) -> (r: bool)
    ensures
        r == is_known_preset(v@),
{
    proof {
        reveal_strlit("normal");
        reveal_strlit("emptysvg");
        reveal_strlit("react");
        reveal_strlit("svelte");
        reveal_strlit("solid");
        reveal_strlit("vue");
    }
    text_eq(v, "normal") || text_eq(v, "emptysvg") || text_eq(v, "react") || text_eq(v, "svelte")
        || text_eq(v, "solid") || text_eq(v, "vue")
}

/// Reads the settings of the user file at `path`.
pub fn parse_global_value(entries: &[ConfigEntry], path: &str, warnings: &mut Vec<String>) -> (r:
    Result<GlobalConfigFile, String>)
    ensures
        match (r, viewer_cmd_field(entries@, path@)) {
            (Ok(c), Ok(v)) => opt_view(c.svg_viewer_cmd) == v && views(final(warnings)@) == views(
                old(warnings)@,
            ) + unknown_key_warnings(entries@, global_keys(), path@) + viewer_cmd_warnings(
                entries@,
                path@,
            ),
            (Err(e), Err(m)) => e@ == m,
            _ => false,
        },
{
    let ghost before = views(warnings@);
    let allowed: [&str; 2] = ["svg_view_cmd", "svg_viewer_cmd"];
    assert(allowed@ =~= global_keys());
    warn_unknown_keys(entries, &allowed, path, warnings);
    let svg_viewer_cmd = match read_svg_viewer_cmd(entries, path, warnings) {
        Ok(v) => v,
        Err(e) => {
            return Err(e);
        },
    };
    Ok(GlobalConfigFile { svg_viewer_cmd })
}

/// The first of `a` and `b` that is set, else `d`.
pub open spec fn first_set(a: Option<Seq<char>>, b: Option<Seq<char>>, d: Seq<char>) -> Seq<char> {
    match a {
        Some(x) => x,
        None => match b {
            Some(y) => y,
            None => d,
        },
    }
}

/// Which viewer command applies, and where it came from.
pub struct ViewerChoice {
    pub command: Option<Seq<char>>,
    pub source: Seq<char>,
}

/// The project file's viewer command, else the user file's, else the
/// operating system's default opener.
pub open spec fn viewer_choice(
    local: Option<LoadedConfigFile<LocalConfigFile>>,
    global: Option<LoadedConfigFile<GlobalConfigFile>>,
) -> ViewerChoice {
    match local {
        Some(l) if l.value.svg_viewer_cmd is Some => ViewerChoice {
            command: opt_view(l.value.svg_viewer_cmd),
            source: "local config ("@ + l.path@ + ")"@,
        },
        _ => match global {
            Some(g) if g.value.svg_viewer_cmd is Some => ViewerChoice {
                command: opt_view(g.value.svg_viewer_cmd),
                source: "global config ("@ + g.path@ + ")"@,
            },
            _ => ViewerChoice { command: None, source: "OS default"@ },
        },
    }
}

/// The notes on which files were read and where the viewer command came from.
pub open spec fn resolution_info(
    local: Option<LoadedConfigFile<LocalConfigFile>>,
    global: Option<LoadedConfigFile<GlobalConfigFile>>,
) -> Seq<Seq<char>> {
    (match local {
        Some(l) => seq!["Loaded local config from "@ + l.path@],
        None => Seq::empty(),
    }) + (match global {
        Some(g) => seq!["Loaded global config from "@ + g.path@],
        None => Seq::empty(),
    }) + seq!["Resolved svg_viewer_cmd source: "@ + viewer_choice(local, global).source]
}

/// Settles each setting: the command line first, then the project file,
/// then the default; the viewer command from the project file, then the
/// user file.
pub fn resolve_tui_config(
    cli_folder: Option<&String>,
    cli_preset: Option<&Preset>,
    cli_output_line_template: Option<&String>,
    local: Option<&LoadedConfigFile<LocalConfigFile>>,
    global: Option<&LoadedConfigFile<GlobalConfigFile>>,
    warnings: Vec<String>,
) -> (r: ResolvedTuiConfig)
    ensures
        ({
            let lv = match local {
                Some(l) => Some(*l),
                None => None,
            };
            let gv = match global {
                Some(g) => Some(*g),
                None => None,
            };
            let lf = match local {
                Some(l) => opt_view(l.value.folder),
                None => None,
            };
            let lp = match local {
                Some(l) => opt_view(l.value.preset),
                None => None,
            };
            let lt = match local {
                Some(l) => opt_view(l.value.output_line_template),
                None => None,
            };
            &&& r.folder@ == first_set(
                match cli_folder {
                    Some(f) => Some(f@),
                    None => None,
                },
                lf,
                DEFAULT_FOLDER@,
            )
            &&& r.preset@ == first_set(
                match cli_preset {
                    Some(p) => Some(preset_name(*p)),
                    None => None,
                },
                lp,
                "normal"@,
            )
            &&& r.output_line_template@ == first_set(
                match cli_output_line_template {
                    Some(t) => Some(t@),
                    None => None,
                },
                lt,
                DEFAULT_OUTPUT_LINE_TEMPLATE@,
            )
            &&& opt_view(r.svg_viewer_cmd) == viewer_choice(lv, gv).command
            &&& r.svg_viewer_cmd_source@ == viewer_choice(lv, gv).source
            &&& r.global_config_loaded == global.is_some()
            &&& r.project_config_loaded == local.is_some()
            &&& r.warnings == warnings
            &&& views(r.info@) == resolution_info(lv, gv)
        }),
{
    let mut info: Vec<String> = Vec::new();
    match local {
        Some(l) => {
            let mut m = String::from_str("Loaded local config from ");
            m.append(l.path.as_str());
            info.push(m);
        },
        None => {},
    }
    match global {
        Some(g) => {
            let mut m = String::from_str("Loaded global config from ");
            m.append(g.path.as_str());
            info.push(m);
        },
        None => {},
    }
    let folder = match cli_folder {
        Some(f) => f.clone(),
        None => match local {
            Some(l) => match &l.value.folder {
                Some(f) => f.clone(),
                None => String::from_str(DEFAULT_FOLDER),
            },
            None => String::from_str(DEFAULT_FOLDER),
        },
    };
    let preset = match cli_preset {
        Some(p) => String::from_str(p.to_str()),
        None => match local {
            Some(l) => match &l.value.preset {
                Some(p) => p.clone(),
                None => String::from_str("normal"),
            },
            None => String::from_str("normal"),
        },
    };
    let output_line_template = match cli_output_line_template {
        Some(t) => t.clone(),
        None => match local {
            Some(l) => match &l.value.output_line_template {
                Some(t) => t.clone(),
                None => String::from_str(DEFAULT_OUTPUT_LINE_TEMPLATE),
            },
            None => String::from_str(DEFAULT_OUTPUT_LINE_TEMPLATE),
        },
    };
    let from_local = match local {
        Some(l) => match &l.value.svg_viewer_cmd {
            Some(c) => {
                let mut source = String::from_str("local config (");
                source.append(l.path.as_str());
                source.append(")");
                Some((c.clone(), source))
            },
            None => None,
        },
        None => None,
    };
    let (svg_viewer_cmd, svg_viewer_cmd_source) = match from_local {
        Some((c, source)) => (Some(c), source),
        None => match global {
            Some(g) => match &g.value.svg_viewer_cmd {
                Some(c) => {
                    let mut source = String::from_str("global config (");
                    source.append(g.path.as_str());
                    source.append(")");
                    (Some(c.clone()), source)
                },
                None => (None, String::from_str("OS default")),
            },
            None => (None, String::from_str("OS default")),
        },
    };
    let mut m = String::from_str("Resolved svg_viewer_cmd source: ");
    m.append(svg_viewer_cmd_source.as_str());
    info.push(m);
    let ghost lv = match local {
        Some(l) => Some(*l),
        None => None,
    };
    let ghost gv = match global {
        Some(g) => Some(*g),
        None => None,
    };
    assert(views(info@) =~= resolution_info(lv, gv));
    ResolvedTuiConfig {
        folder,
        preset,
        output_line_template,
        svg_viewer_cmd,
        svg_viewer_cmd_source,
        global_config_loaded: global.is_some(),
        project_config_loaded: local.is_some(),
        warnings,
        info,
    }
}

} // verus!
