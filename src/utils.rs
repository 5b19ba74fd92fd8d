//! Icon entries of the export ledger and output presets.

use vstd::prelude::*;
use vstd::string::*;
use crate::text::{
    char_from, contains_text, find_char_from, find_text_from, is_substring, lemma_char_from_finds, lowercase_of, starts_with,
    replace_text, replaced, starts_with_text, text_from, to_lowercase, trim_start_text, trim_text,
    trimmed, trimmed_start,
};

verus! {

/// One exported icon: its alias and the file it points to.
#[derive(Debug, Clone)]
pub struct IconEntry {
    pub name: String,
    pub file_path: String,
}

impl IconEntry {
    /// A copy with the same fields.
    pub fn duplicate(&self) -> (r: Self)
        ensures
            r == *self,
    {
        IconEntry { name: self.name.clone(), file_path: self.file_path.clone() }
    }
}

/// An output format for a new icon.
#[derive(Clone, Copy, Debug, PartialEq, Eq, Structural, Hash)]
pub enum Preset {
    /// A plain SVG file.
    Svg,
    /// A React component.
    React,
    /// A Svelte component.
    Svelte,
    /// A SolidJS component.
    Solid,
    /// A Vue component.
    Vue,
}

/// The name a preset goes by on the command line and in configuration.
pub open spec fn preset_name(p: Preset) -> Seq<char> {
    match p {
        Preset::Svg => "emptysvg"@,
        Preset::React => "react"@,
        Preset::Svelte => "svelte"@,
        Preset::Solid => "solid"@,
        Preset::Vue => "vue"@,
    }
}

/// The file extension a preset writes.
pub open spec fn preset_ext(p: Preset) -> Seq<char> {
    match p {
        Preset::Svg => "svg"@,
        Preset::React => "tsx"@,
        Preset::Svelte => "svelte"@,
        Preset::Solid => "tsx"@,
        Preset::Vue => "vue"@,
    }
}

impl Preset {
    /// The name this preset goes by.
    pub fn to_str(&self) -> (r: &'static str)
        ensures
            r@ == preset_name(*self),
    {
        match self {
            Preset::Svg => "emptysvg",
            Preset::React => "react",
            Preset::Svelte => "svelte",
            Preset::Solid => "solid",
            Preset::Vue => "vue",
        }
    }

    /// The file extension this preset writes.
    pub fn extension(&self) -> (r: &'static str)
        ensures
            r@ == preset_ext(*self),
    {
        match self {
            Preset::Svg => "svg",
            Preset::React => "tsx",
            Preset::Svelte => "svelte",
            Preset::Solid => "tsx",
            Preset::Vue => "vue",
        }
    }
}

/// A preset with a line that describes it.
#[derive(Debug, Clone)]
pub struct PresetOption {
    pub preset: Preset,
    pub description: &'static str,
}

/// Every preset, in the order they are offered, with its description.
pub fn presets_options() -> (r: Vec<PresetOption>)
    ensures
        r@.len() == 5,
        r@[0].preset == Preset::Svg,
        r@[1].preset == Preset::React,
        r@[2].preset == Preset::Svelte,
        r@[3].preset == Preset::Solid,
        r@[4].preset == Preset::Vue,
{
    vec![
        PresetOption { preset: Preset::Svg, description: "Outputs an svg (.svg)" },
        PresetOption { preset: Preset::React, description: "Outputs a React component (.tsx)" },
        PresetOption { preset: Preset::Svelte, description: "Outputs a Svelte component (.svelte)" },
        PresetOption { preset: Preset::Solid, description: "Outputs a SolidJS component (.tsx)" },
        PresetOption { preset: Preset::Vue, description: "Outputs a Vue component (.vue)" },
    ]
}

/// The file name for a new icon: the name given, with the preset's
/// extension added where it has none; `component.<ext>` where no name is
/// given; without a preset, the name given or nothing.
pub open spec fn preset_file_name(file_name: Option<Seq<char>>, preset: Option<Preset>) -> Seq<char> {
    match (preset, file_name) {
        (Some(p), Some(n)) => if n.contains('.') {
            n
        } else {
            n + "."@ + preset_ext(p)
        },
        (Some(p), None) => "component."@ + preset_ext(p),
        (None, Some(n)) => n,
        (None, None) => Seq::empty(),
    }
}

/// The file name for a new icon of `preset` called `file_name`.
pub fn filename_from_preset(file_name: Option<String>, preset: Option<Preset>) -> (r: String)
    ensures
        r@ == preset_file_name(
            match file_name {
                Some(n) => Some(n@),
                None => None,
            },
            preset,
        ),
{
    match preset {
        Some(p) => {
            let ext = p.extension();
            match file_name {
                Some(name) => {
                    let dot = find_char_from(name.as_str(), '.', 0);
                    proof {
                        lemma_char_from_finds(name@, '.', 0);
                    }
                    if dot.is_some() {
                        name
                    } else {
                        let mut r = name;
                        r.append(".");
                        r.append(ext);
                        r
                    }
                },
                None => {
                    let mut r = String::from_str("component.");
                    r.append(ext);
                    r
                },
            }
        },
        None => match file_name {
            Some(name) => name,
            None => String::new(),
        },
    }
}

/// Where an icon comes from.
#[derive(Debug, PartialEq, Eq, Structural, Clone, Copy)]
pub enum IconSourceType {
    /// A catalog name such as `stash:chevron`.
    IconifyName,
    /// An `http://` or `https://` address.
    Url,
    /// SVG markup.
    SvgContent,
    /// Nothing given.
    Absent,
}

/// The kind of an icon source: SVG markup where it starts with `<svg` after
/// white space, a web address where it starts with `http://` or `https://`,
/// else a catalog name.
pub open spec fn source_type_of(source: Option<Seq<char>>) -> IconSourceType {
    match source {
        None => IconSourceType::Absent,
        Some(s) => if starts_with(trimmed_start(s), "<svg"@) {
            IconSourceType::SvgContent
        } else if starts_with(s, "http://"@) || starts_with(s, "https://"@) {
            IconSourceType::Url
        } else {
            IconSourceType::IconifyName
        },
    }
}

/// The kind of an icon source.
pub fn _determine_icon_source_type(icon_source: Option<&String>) -> (r: IconSourceType)
    ensures
        r == source_type_of(
            match icon_source {
                Some(s) => Some(s@),
                None => None,
            },
        ),
{
    match icon_source {
        None => IconSourceType::Absent,
        Some(icon) => {
            let head = trim_start_text(icon.as_str());
            if starts_with_text(head.as_str(), "<svg") {
                IconSourceType::SvgContent
            } else if starts_with_text(icon.as_str(), "http://") || starts_with_text(
                icon.as_str(),
                "https://",
            ) {
                IconSourceType::Url
            } else {
                IconSourceType::IconifyName
            }
        },
    }
}

/// The name and relative path that one export line of the ledger holds.
pub struct ExportLine {
    pub name: Seq<char>,
    pub path: Seq<char>,
}

/// The text that introduces the path of an export line.
pub open spec fn from_marker() -> Seq<char> {
    seq!['f', 'r', 'o', 'm', ' ', '"']
}

/// What an export line `export { default as <Name> } from "<path>"` holds,
/// once trimmed; `None` for any line of another shape.
pub open spec fn export_line_of(line: Seq<char>) -> Option<ExportLine> {
    let t = trimmed(line);
    let head = "export { default as "@;
    if !starts_with(t, head) {
        None
    } else {
        let name_end = char_from(t, '}', head.len() as int);
        let from_at = text_from(t, from_marker(), name_end);
        let path_start = from_at + 6;
        let path_end = char_from(t, '"', path_start);
        if name_end >= t.len() || from_at >= t.len() || path_end >= t.len() {
            None
        } else {
            Some(
                ExportLine {
                    name: trimmed(t.subrange(head.len() as int, name_end)),
                    path: t.subrange(path_start, path_end),
                },
            )
        }
    }
}

/// Reads one export line of the ledger: the icon's alias and the path it is
/// exported from, as written in the line.
pub fn parse_export_line_ts(line: &str) -> (r: Option<IconEntry>)
    ensures
        match export_line_of(line@) {
            Some(e) => r is Some && r->0.name@ == e.name && r->0.file_path@ == e.path,
            None => r is None,
        },
{
    let t = trim_text(line);
    let ts = t.as_str();
    let head = "export { default as ";
    proof {
        reveal_strlit("export { default as ");
        reveal_strlit("from \"");
    }
    assert("export { default as "@.len() == 20);
    assert("from \""@.len() == 6);
    if !starts_with_text(ts, head) {
        return None;
    }
    proof {
        lemma_char_from_finds(ts@, '}', 20);
    }
    let name_end = match find_char_from(ts, '}', 20) {
        Some(k) => k,
        None => {
            return None;
        },
    };
    let from_text = "from \"";
    assert(from_text@ =~= from_marker());
    let n = ts.unicode_len();
    proof {
        crate::text::lemma_text_from_bounds(ts@, from_text@, name_end as int);
    }
    let from_at = match find_text_from(ts, from_text, name_end) {
        Some(k) => k,
        None => {
            return None;
        },
    };
    let path_start = from_at + 6;
    proof {
        lemma_char_from_finds(ts@, '"', path_start as int);
    }
    let path_end = match find_char_from(ts, '"', path_start) {
        Some(k) => k,
        None => {
            return None;
        },
    };
    let name = trim_text(ts.substring_char(20, name_end));
    let path = String::from_str(ts.substring_char(path_start, path_end));
    Some(IconEntry { name, file_path: path })
}

/// `s` ends with `p`.
pub open spec fn ends_with(s: Seq<char>, p: Seq<char>) -> bool {
    p.len() <= s.len() && s.skip(s.len() - p.len()) == p
}

/// Whether `s` ends with `p`.
fn ends_with_text(s: &str, p: &str) -> (r: bool)
    ensures
        r == ends_with(s@, p@),
{
    let n = s.unicode_len();
    let m = p.unicode_len();
    if m > n {
        return false;
    }
    let tail = s.substring_char(n - m, n);
    let r = starts_with_text(tail, p);
    assert(tail@.take(m as int) =~= tail@);
    assert(tail@ =~= s@.skip(n - m));
    r
}

/// The stem of a new icon file before any extension is stripped: the stem
/// given, else the icon source where it is a catalog name, else the alias
/// lowercased.
pub open spec fn chosen_stem(
    stem: Option<Seq<char>>,
    source: Option<Seq<char>>,
    name: Seq<char>,
) -> Seq<char> {
    match stem {
        Some(s) => s,
        None => match source {
            Some(src) => if source_type_of(source) == IconSourceType::IconifyName {
                src
            } else {
                lowercase_of(name)
            },
            None => lowercase_of(name),
        },
    }
}

/// The stem and extension of a new icon file: the chosen stem, with every
/// occurrence of `ext` taken out where it ends with `ext`.
pub fn _make_svg_filename(
    stem_from_cli: Option<&String>,
    ext: &'static str,
    icon_source: Option<&String>,
    name_from_cli: &str,
) -> (r: (String, &'static str))
    ensures
        r.1 == ext,
        ({
            let st = chosen_stem(
                match stem_from_cli {
                    Some(s) => Some(s@),
                    None => None,
                },
                match icon_source {
                    Some(s) => Some(s@),
                    None => None,
                },
                name_from_cli@,
            );
            r.0@ == if ends_with(st, ext@) {
                replaced(st, ext@, Seq::empty())
            } else {
                st
            }
        }),
{
    let stem = match stem_from_cli {
        Some(s) => s.clone(),
        None => match icon_source {
            Some(icon) => match _determine_icon_source_type(icon_source) {
                IconSourceType::IconifyName => icon.clone(),
                _ => to_lowercase(name_from_cli),
            },
            None => to_lowercase(name_from_cli),
        },
    };
    if ends_with_text(stem.as_str(), ext) {
        proof {
            reveal_strlit("");
        }
        assert(""@ =~= Seq::<char>::empty());
        (replace_text(stem.as_str(), ext, ""), ext)
    } else {
        (stem, ext)
    }
}

/// The lines of `s` from index `i` on, as `str::lines` splits them: at each
/// `\n`, with one trailing `\r` dropped, and no empty line after a final `\n`.
pub open spec fn lines_from(s: Seq<char>, i: int) -> Seq<Seq<char>>
    decreases s.len() + 1 - i,
{
    if i < 0 || i >= s.len() {
        Seq::empty()
    } else {
        let k = char_from(s, '\n', i);
        let raw = s.subrange(i, k);
        let line = if raw.len() > 0 && raw.last() == '\r' {
            raw.drop_last()
        } else {
            raw
        };
        if k < i || k > s.len() {
            Seq::empty()
        } else {
            seq![line] + lines_from(s, k + 1)
        }
    }
}

/// Whether a ledger line exports the file: it names its relative path, or
/// names its stem and exports something.
pub open spec fn exports_file(line: Seq<char>, relative_path: Seq<char>, stem: Seq<char>) -> bool {
    is_substring(relative_path, line) || (is_substring(stem, line) && is_substring(
        "export"@,
        line,
    ))
}

/// The lines of `lines` that do not export the file.
pub open spec fn kept_lines(lines: Seq<Seq<char>>, relative_path: Seq<char>, stem: Seq<char>) -> Seq<
    Seq<char>,
>
    decreases lines.len(),
{
    if lines.len() == 0 {
        Seq::empty()
    } else {
        let rest = kept_lines(lines.drop_last(), relative_path, stem);
        if exports_file(lines.last(), relative_path, stem) {
            rest
        } else {
            rest.push(lines.last())
        }
    }
}

/// `lines` joined with `\n`.
pub open spec fn joined_lines(lines: Seq<Seq<char>>) -> Seq<char>
    decreases lines.len(),
{
    if lines.len() == 0 {
        Seq::empty()
    } else if lines.len() == 1 {
        lines[0]
    } else {
        joined_lines(lines.drop_last()) + seq!['\n'] + lines.last()
    }
}

/// The ledger `contents` without the lines that export the file at
/// `relative_path` (its `\` read as `/`) with stem `file_stem`, and whether
/// any line was taken out.
pub fn remove_export_lines(contents: &str, relative_path: &str, file_stem: &str) -> (r: (
    String,
    bool,
))
    ensures
        ({
            let rel = replaced(relative_path@, seq!['\\'], seq!['/']);
            let lines = lines_from(contents@, 0);
            let kept = kept_lines(lines, rel, file_stem@);
            &&& r.0@ == joined_lines(kept)
            &&& r.1 == (kept.len() < lines.len())
        }),
{
    proof {
        reveal_strlit("\\");
        reveal_strlit("/");
        reveal_strlit("export");
    }
    assert("\\"@ =~= seq!['\\']);
    assert("/"@ =~= seq!['/']);
    let normalized = replace_text(relative_path, "\\", "/");
    let ghost rel = normalized@;
    let n = contents.unicode_len();
    let mut out = String::new();
    let mut count: usize = 0;
    let mut found = false;
    let mut i: usize = 0;
    let ghost mut seen: Seq<Seq<char>> = Seq::empty();
    while i < n
        invariant
            n == contents@.len(),
            i <= n,
            rel == normalized@,
            seen + lines_from(contents@, i as int) == lines_from(contents@, 0),
            out@ == joined_lines(kept_lines(seen, rel, file_stem@)),
            count == kept_lines(seen, rel, file_stem@).len(),
            found == (kept_lines(seen, rel, file_stem@).len() < seen.len()),
            kept_lines(seen, rel, file_stem@).len() <= seen.len(),
            seen.len() <= i,
        decreases n - i,
    {
        proof {
            crate::text::lemma_char_from_finds(contents@, '\n', i as int);
        }
        let k = match find_char_from(contents, '\n', i) {
            Some(k) => k,
            None => n,
        };
        let raw = contents.substring_char(i, k);
        let m = raw.unicode_len();
        let line = if m > 0 && raw.get_char(m - 1) == '\r' {
            raw.substring_char(0, m - 1)
        } else {
            raw
        };
        let ghost before = seen;
        proof {
            seen = seen.push(line@);
            assert(seen.drop_last() =~= before);
            assert(before + lines_from(contents@, i as int) =~= seen + lines_from(contents@, k + 1));
        }
        let drop = contains_text(line, normalized.as_str()) || (contains_text(line, file_stem)
            && contains_text(line, "export"));
        assert(drop == exports_file(line@, rel, file_stem@));
        if drop {
            found = true;
        } else {
            let ghost out0 = out@;
            if count > 0 {
                out.append("\n");
            }
            out.append(line);
            proof {
                let kb = kept_lines(before, rel, file_stem@);
                if kb.len() == 0 {
                    assert(kb.push(line@).len() == 1);
                    assert(kb.push(line@)[0] == line@);
                    assert(out@ =~= joined_lines(kb.push(line@)));
                } else {
                    let kp = kb.push(line@);
                    assert(kp.drop_last() =~= kb);
                    assert(kp.last() == line@);
                    assert(kp.len() >= 2);
                    assert(joined_lines(kp) == joined_lines(kb) + seq!['\n'] + line@);
                    reveal_strlit("\n");
                    assert("\n"@ =~= seq!['\n']);
                    assert(out@ =~= out0 + seq!['\n'] + line@);
                    assert(out@ =~= joined_lines(kp));
                }
            }
            count = count + 1;
        }
        i = if k < n {
            k + 1
        } else {
            n
        };
    }
    assert(seen + lines_from(contents@, i as int) =~= seen);
    (out, found)
}

/// `s` with every leading `./` taken off.
pub open spec fn without_dot_slash(s: Seq<char>) -> Seq<char>
    decreases s.len(),
{
    if s.len() >= 2 && s[0] == '.' && s[1] == '/' {
        without_dot_slash(s.skip(2))
    } else {
        s
    }
}

/// `s` up to its first `?`.
pub open spec fn before_query(s: Seq<char>) -> Seq<char> {
    s.take(char_from(s, '?', 0))
}

/// What an export line `export { default as Icon<Name> } from '<path>'`
/// holds, once trimmed: the alias after `Icon`, and the path without a
/// leading `./` or a `?` suffix; `None` for any line of another shape.
pub open spec fn icon_export_of(line: Seq<char>) -> Option<ExportLine> {
    let t = trimmed(line);
    let head = "export { default as Icon"@;
    let at = text_from(t, head, 0);
    let name_start = at + head.len();
    let name_end = char_from(t, '}', name_start);
    let from_at = text_from(t, "from '"@, 0);
    let path_start = from_at + 6;
    let path_end = char_from(t, '\'', path_start);
    if at >= t.len() || name_end >= t.len() || from_at >= t.len() || path_end >= t.len() {
        None
    } else {
        Some(
            ExportLine {
                name: trimmed(t.subrange(name_start, name_end)),
                path: before_query(without_dot_slash(t.subrange(path_start, path_end))),
            },
        )
    }
}

fn strip_dot_slash(s: &str) -> (r: &str)
    ensures
        r@ == without_dot_slash(s@),
{
    let n = s.unicode_len();
    let mut i: usize = 0;
    assert(s@.skip(0) =~= s@);
    while n - i >= 2 && s.get_char(i) == '.' && s.get_char(i + 1) == '/'
        invariant
            n == s@.len(),
            i <= n,
            without_dot_slash(s@) == without_dot_slash(s@.skip(i as int)),
        decreases n - i,
    {
        assert(s@.skip(i as int).skip(2) =~= s@.skip(i + 2));
        i = i + 2;
    }
    let r = s.substring_char(i, n);
    assert(r@ =~= s@.skip(i as int));
    r
}

/// Reads one export line in the single-quoted form with an `Icon` prefix on
/// the alias.
pub fn _parse_export_line(line: &str) -> (r: Option<IconEntry>)
    ensures
        match icon_export_of(line@) {
            Some(e) => r is Some && r->0.name@ == e.name && r->0.file_path@ == e.path,
            None => r is None,
        },
{
    let t = trim_text(line);
    let ts = t.as_str();
    let n = ts.unicode_len();
    let head = "export { default as Icon";
    let from_text = "from '";
    proof {
        reveal_strlit("export { default as Icon");
        reveal_strlit("from '");
    }
    assert(head@.len() == 24);
    assert(from_text@.len() == 6);
    proof {
        crate::text::lemma_text_from_bounds(ts@, head@, 0);
        crate::text::lemma_text_from_bounds(ts@, from_text@, 0);
    }
    let at = match find_text_from(ts, head, 0) {
        Some(k) => k,
        None => {
            return None;
        },
    };
    let name_start = at + 24;
    proof {
        lemma_char_from_finds(ts@, '}', name_start as int);
    }
    let name_end = match find_char_from(ts, '}', name_start) {
        Some(k) => k,
        None => {
            return None;
        },
    };
    let from_at = match find_text_from(ts, from_text, 0) {
        Some(k) => k,
        None => {
            return None;
        },
    };
    let path_start = from_at + 6;
    proof {
        lemma_char_from_finds(ts@, '\'', path_start as int);
    }
    let path_end = match find_char_from(ts, '\'', path_start) {
        Some(k) => k,
        None => {
            return None;
        },
    };
    let name = trim_text(ts.substring_char(name_start, name_end));
    let raw = ts.substring_char(path_start, path_end);
    let cleaned = strip_dot_slash(raw);
    let cleaned_len = cleaned.unicode_len();
    proof {
        lemma_char_from_finds(cleaned@, '?', 0);
    }
    let path = match find_char_from(cleaned, '?', 0) {
        Some(q) => {
            let p = String::from_str(cleaned.substring_char(0, q));
            assert(p@ =~= cleaned@.take(q as int));
            p
        },
        None => {
            let m = cleaned.unicode_len();
            assert(char_from(cleaned@, '?', 0) == m);
            assert(cleaned@.take(m as int) =~= cleaned@);
            String::from_str(cleaned)
        },
    };
    assert(path@ == before_query(cleaned@));
    assert(cleaned@ == without_dot_slash(raw@));
    Some(IconEntry { name, file_path: path })
}

} // verus!
