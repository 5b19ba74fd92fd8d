//! Opening an icon file for a look: a configured viewer command first, then
//! the system's default opener, then the icon's web preview.
//!
//! Each attempt is carried out by the caller; the flow here decides what to
//! try next from how the last attempt went.

use vstd::prelude::*;
use vstd::string::*;
use crate::links::{is_icon_name, path_file_stem, preview_url_of, web_preview_url_for_stem};
use crate::text::{contains_text, is_substring, replace_text, replaced};

verus! {

/// How POSIX-style shell quoting splits `s` into words; `None` where its
/// quoting is malformed.
pub uninterp spec fn shell_words(s: Seq<char>) -> Option<Seq<Seq<char>>>;

/// The views of a list of strings.
pub open spec fn word_views(v: Seq<String>) -> Seq<Seq<char>> {
    v.map_values(|s: String| s@)
}

/// Relies on `shlex::split`: the words of `s` under shell quoting rules, or
/// `None` where the quoting is malformed; the result depends on `s` alone.
#[verifier::external_body]
fn split_words(s: &str) -> (r: Option<Vec<String>>)
    ensures
        match r {
            Some(v) => shell_words(s@) == Some(word_views(v@)),
            None => shell_words(s@) is None,
        },
{
    shlex::split(s)
}

/// The placeholder a viewer command uses for the file to open.
pub open spec fn placeholder() -> Seq<char> {
    "%filename%"@
}

/// The command line a viewer command template gives for `file`: its words
/// with the placeholder filled in, and `file` appended where no word holds
/// the placeholder.
pub open spec fn viewer_argv(words: Seq<Seq<char>>, file: Seq<char>) -> Seq<Seq<char>> {
    let filled = words.map_values(
        |w: Seq<char>|
            if is_substring(placeholder(), w) {
                replaced(w, placeholder(), file)
            } else {
                w
            },
    );
    if exists|i: int| 0 <= i < words.len() && is_substring(placeholder(), #[trigger] words[i]) {
        filled
    } else {
        filled.push(file)
    }
}

/// The error for a template whose quoting is malformed.
pub open spec fn unparsable_error(template: Seq<char>) -> Seq<char> {
    "Could not parse svg_viewer_cmd. Check quoting in '"@ + template + "'."@
}

/// The command line to run for a viewer command template and a file.
pub fn custom_command_argv(template: &str, file_name: &str) -> (r: Result<Vec<String>, String>)
    ensures
        match shell_words(template@) {
            None => r is Err && r->Err_0@ == unparsable_error(template@),
            Some(words) => if words.len() == 0 {
                r is Err && r->Err_0@ == "svg_viewer_cmd is empty"@
            } else {
                r is Ok && word_views(r->Ok_0@) == viewer_argv(words, file_name@)
            },
        },
{
    let parts = match split_words(template) {
        Some(p) => p,
        None => {
            let mut m = String::from_str("Could not parse svg_viewer_cmd. Check quoting in '");
            m.append(template);
            m.append("'.");
            return Err(m);
        },
    };
    if parts.len() == 0 {
        return Err(String::from_str("svg_viewer_cmd is empty"));
    }
    let ghost words = word_views(parts@);
    proof {
        reveal_strlit("%filename%");
    }
    let mut out: Vec<String> = Vec::new();
    let mut used = false;
    let mut i: usize = 0;
    while i < parts.len()
        invariant
            i <= parts@.len(),
            words == word_views(parts@),
            out@.len() == i,
            forall|k: int|
                0 <= k < i ==> #[trigger] out@[k]@ == (if is_substring(placeholder(), words[k]) {
                    replaced(words[k], placeholder(), file_name@)
                } else {
                    words[k]
                }),
            used == exists|k: int| 0 <= k < i && is_substring(placeholder(), #[trigger] words[k]),
        decreases parts@.len() - i,
    {
        assert(words[i as int] == parts@[i as int]@);
        if contains_text(parts[i].as_str(), "%filename%") {
            out.push(replace_text(parts[i].as_str(), "%filename%", file_name));
            used = true;
        } else {
            out.push(parts[i].clone());
        }
        i = i + 1;
    }
    let ghost filled = words.map_values(
        |w: Seq<char>|
            if is_substring(placeholder(), w) {
                replaced(w, placeholder(), file_name@)
            } else {
                w
            },
    );
    assert(word_views(out@) =~= filled);
    if !used {
        out.push(String::from_str(file_name));
        assert(word_views(out@) =~= filled.push(file_name@));
    }
    Ok(out)
}

/// How an icon file ended up opened.
#[derive(Debug, Clone, PartialEq, Eq)]
pub enum OpenSvgOutcome {
    OpenedWithCustomCommand,
    OpenedWithOsDefault,
    OpenedWithOsDefaultAfterCustomFailure,
    OpenedWithWebPreview(String),
}

/// The next thing to try, or the end of the flow.
#[derive(Debug)]
pub enum OpenSvgAction {
    /// Start `program` with `args` in the background.
    RunCustomCommand { program: String, args: Vec<String> },
    /// Open the file with the system's default opener.
    OpenWithOsDefault,
    /// Open `url` in a web browser.
    OpenWebPreview { url: String },
    Finished(Result<OpenSvgOutcome, String>),
}

/// Where the flow stands.
#[derive(Debug)]
pub enum OpenSvgStage {
    CustomCommand,
    OsDefault,
    WebPreview(String),
    Done,
}

/// The state of one attempt to open an icon file.
#[derive(Debug)]
pub struct OpenSvgFlow {
    pub svg_path: String,
    /// The stem of the file's name, as the platform's path rules give it.
    pub svg_stem: Option<String>,
    pub svg_viewer_cmd: Option<String>,
    pub stage: OpenSvgStage,
    pub errors: Vec<String>,
}

/// `errs` joined with ` | `.
pub open spec fn joined(errs: Seq<Seq<char>>) -> Seq<char>
    decreases errs.len(),
{
    if errs.len() == 0 {
        Seq::empty()
    } else if errs.len() == 1 {
        errs[0]
    } else {
        joined(errs.drop_last()) + " | "@ + errs.last()
    }
}

/// The error once every way to open the file has failed.
pub open spec fn all_failed_error(path: Seq<char>, errs: Seq<Seq<char>>) -> Seq<char> {
    "Failed to open icon file "@ + path + ". "@ + joined(errs)
}

fn join_errors(errs: &Vec<String>) -> (r: String)
    ensures
        r@ == joined(word_views(errs@)),
{
    let mut r = String::new();
    let mut i: usize = 0;
    while i < errs.len()
        invariant
            i <= errs@.len(),
            r@ == joined(word_views(errs@.take(i as int))),
        decreases errs@.len() - i,
    {
        assert(word_views(errs@.take(i + 1)).drop_last() =~= word_views(errs@.take(i as int)));
        if i > 0 {
            r.append(" | ");
        } else {
            assert(word_views(errs@.take(0)) =~= Seq::<Seq<char>>::empty());
        }
        r.append(errs[i].as_str());
        i = i + 1;
        assert(r@ =~= joined(word_views(errs@.take(i as int))));
    }
    assert(errs@.take(errs@.len() as int) =~= errs@);
    r
}

/// The message for a failed attempt with the viewer command `template`.
pub open spec fn custom_failure(template: Seq<char>) -> Seq<char> {
    "custom svg_viewer_cmd failed: Failed to run svg_viewer_cmd '"@ + template + "'."@
}

/// Starts opening the icon file at `svg_path`: the viewer command where one
/// is set and gives a command line, else the default opener.
pub fn open_svg_with_fallback(svg_path: &str, svg_viewer_cmd: Option<&str>, file_exists: bool) -> (r:
    (OpenSvgFlow, OpenSvgAction))
    ensures
        r.0.svg_path@ == svg_path@,
        !file_exists ==> r.0.stage is Done && r.1 is Finished && r.1->Finished_0 is Err
            && r.1->Finished_0->Err_0@ == "Icon file not found: "@ + svg_path@,
        file_exists && svg_viewer_cmd is None ==> r.0.stage is OsDefault && r.1 is OpenWithOsDefault
            && r.0.errors@.len() == 0,
        file_exists && svg_viewer_cmd is Some ==> match r.1 {
            OpenSvgAction::RunCustomCommand { program, args } => {
                &&& r.0.stage is CustomCommand
                &&& r.0.errors@.len() == 0
                &&& shell_words(svg_viewer_cmd->0@) is Some
                &&& seq![program@] + word_views(args@) == viewer_argv(
                    shell_words(svg_viewer_cmd->0@)->0,
                    svg_path@,
                )
            },
            OpenSvgAction::OpenWithOsDefault => {
                &&& r.0.stage is OsDefault
                &&& r.0.errors@.len() == 1
                &&& (shell_words(svg_viewer_cmd->0@) is None || shell_words(
                    svg_viewer_cmd->0@,
                )->0.len() == 0)
            },
            _ => false,
        },
        file_exists ==> opt_str(r.0.svg_viewer_cmd) == opt_ref_str(svg_viewer_cmd),
{
    let cmd = match svg_viewer_cmd {
        Some(t) => Some(String::from_str(t)),
        None => None,
    };
    let mut flow = OpenSvgFlow {
        svg_path: String::from_str(svg_path),
        svg_stem: path_file_stem(svg_path),
        svg_viewer_cmd: cmd,
        stage: OpenSvgStage::OsDefault,
        errors: Vec::new(),
    };
    if !file_exists {
        flow.stage = OpenSvgStage::Done;
        let mut m = String::from_str("Icon file not found: ");
        m.append(svg_path);
        return (flow, OpenSvgAction::Finished(Err(m)));
    }
    match svg_viewer_cmd {
        None => (flow, OpenSvgAction::OpenWithOsDefault),
        Some(template) => match custom_command_argv(template, svg_path) {
            Ok(argv) => {
                proof {
                    let ws = shell_words(template@)->0;
                    assert(viewer_argv(ws, svg_path@).len() >= ws.len());
                    assert(word_views(argv@).len() == argv@.len());
                }
                let mut args = argv;
                let program = args.remove(0);
                assert(seq![program@] + word_views(args@) =~= word_views(argv@));
                flow.stage = OpenSvgStage::CustomCommand;
                (flow, OpenSvgAction::RunCustomCommand { program, args })
            },
            Err(e) => {
                let mut m = String::from_str("custom svg_viewer_cmd failed: ");
                m.append(e.as_str());
                flow.errors.push(m);
                (flow, OpenSvgAction::OpenWithOsDefault)
            },
        },
    }
}

/// The view of an optional string.
pub open spec fn opt_str(o: Option<String>) -> Option<Seq<char>> {
    match o {
        Some(s) => Some(s@),
        None => None,
    }
}

/// The view of an optional string slice.
pub open spec fn opt_ref_str(o: Option<&str>) -> Option<Seq<char>> {
    match o {
        Some(s) => Some(s@),
        None => None,
    }
}

/// After the default opener failed with `e`: the failure is recorded, and the
/// file's own preview page is tried next where its stem names a catalog
/// icon; otherwise the flow ends with every failure reported.
pub open spec fn os_default_failed(
    before: OpenSvgFlow,
    after: OpenSvgFlow,
    e: String,
    r: OpenSvgAction,
) -> bool {
    let errs = word_views(before.errors@).push("OS default open failed: "@ + e@);
    &&& word_views(after.errors@) == errs
    &&& match r {
        OpenSvgAction::OpenWebPreview { url } => {
            &&& after.stage == OpenSvgStage::WebPreview(url)
            &&& before.svg_stem is Some
            &&& is_icon_name(before.svg_stem->0@)
            &&& url@ == preview_url_of(before.svg_stem->0@)
        },
        OpenSvgAction::Finished(Err(m)) => {
            &&& after.stage is Done
            &&& (before.svg_stem is None || !is_icon_name(before.svg_stem->0@))
            &&& m@ == all_failed_error(before.svg_path@, errs)
        },
        _ => false,
    }
}

impl OpenSvgFlow {
    /// Takes how the last attempt went and says what to do next.
    pub fn step(&mut self, result: Result<(), String>) -> (r: OpenSvgAction)
        requires
            !(old(self).stage is Done),
        ensures
            final(self).svg_path == old(self).svg_path,
            final(self).svg_stem == old(self).svg_stem,
            final(self).svg_viewer_cmd == old(self).svg_viewer_cmd,
            match (old(self).stage, result) {
                (OpenSvgStage::CustomCommand, Ok(_)) => final(self).stage is Done && r
                    == OpenSvgAction::Finished(Ok(OpenSvgOutcome::OpenedWithCustomCommand)),
                (OpenSvgStage::CustomCommand, Err(_)) => {
                    &&& final(self).stage is OsDefault
                    &&& r is OpenWithOsDefault
                    &&& word_views(final(self).errors@) == word_views(old(self).errors@).push(
                        custom_failure(opt_str(old(self).svg_viewer_cmd).unwrap_or(Seq::empty())),
                    )
                },
                (OpenSvgStage::OsDefault, Ok(_)) => final(self).stage is Done && r
                    == OpenSvgAction::Finished(
                    Ok(
                        if old(self).svg_viewer_cmd is Some {
                            OpenSvgOutcome::OpenedWithOsDefaultAfterCustomFailure
                        } else {
                            OpenSvgOutcome::OpenedWithOsDefault
                        },
                    ),
                ),
                (OpenSvgStage::OsDefault, Err(e)) => os_default_failed(*old(self), *final(self), e, r),
                (OpenSvgStage::WebPreview(url), Ok(_)) => final(self).stage is Done && r
                    == OpenSvgAction::Finished(Ok(OpenSvgOutcome::OpenedWithWebPreview(url))),
                (OpenSvgStage::WebPreview(url), Err(_)) => {
                    &&& final(self).stage is Done
                    &&& r is Finished
                    &&& r->Finished_0 is Err
                    &&& r->Finished_0->Err_0@
                        == "Failed to open web preview URL after local open failures: "@ + url@
                },
                _ => false,
            },
    {
        let preview = match &self.stage {
            OpenSvgStage::WebPreview(u) => Some(u.clone()),
            _ => None,
        };
        let was_custom = match &self.stage {
            OpenSvgStage::CustomCommand => true,
            _ => false,
        };
        self.stage = OpenSvgStage::Done;
        if was_custom {
            match result {
                Ok(()) => OpenSvgAction::Finished(Ok(OpenSvgOutcome::OpenedWithCustomCommand)),
                Err(_) => {
                    let mut m = String::from_str(
                        "custom svg_viewer_cmd failed: Failed to run svg_viewer_cmd '",
                    );
                    match &self.svg_viewer_cmd {
                        Some(t) => m.append(t.as_str()),
                        None => {},
                    }
                    m.append("'.");
                    self.errors.push(m);
                    self.stage = OpenSvgStage::OsDefault;
                    proof {
                        reveal_strlit("");
                    }
                    OpenSvgAction::OpenWithOsDefault
                },
            }
        } else {
            match preview {
                Some(url) => match result {
                    Ok(()) => OpenSvgAction::Finished(Ok(OpenSvgOutcome::OpenedWithWebPreview(url))),
                    Err(_) => {
                        let mut m = String::from_str(
                            "Failed to open web preview URL after local open failures: ",
                        );
                        m.append(url.as_str());
                        OpenSvgAction::Finished(Err(m))
                    },
                },
                None => match result {
                    Ok(()) => OpenSvgAction::Finished(
                        Ok(
                            if self.svg_viewer_cmd.is_some() {
                                OpenSvgOutcome::OpenedWithOsDefaultAfterCustomFailure
                            } else {
                                OpenSvgOutcome::OpenedWithOsDefault
                            },
                        ),
                    ),
                    Err(e) => {
                        let mut m = String::from_str("OS default open failed: ");
                        m.append(e.as_str());
                        let ghost errs0 = self.errors@;
                        self.errors.push(m);
                        assert(word_views(self.errors@) =~= word_views(errs0).push(
                            "OS default open failed: "@ + e@,
                        ));
                        let preview = match &self.svg_stem {
                            Some(stem) => web_preview_url_for_stem(stem.as_str()),
                            None => None,
                        };
                        match preview {
                            Some(url) => {
                                self.stage = OpenSvgStage::WebPreview(url.clone());
                                OpenSvgAction::OpenWebPreview { url }
                            },
                            None => {
                                let mut m = String::from_str("Failed to open icon file ");
                                m.append(self.svg_path.as_str());
                                m.append(". ");
                                let j = join_errors(&self.errors);
                                m.append(j.as_str());
                                OpenSvgAction::Finished(Err(m))
                            },
                        }
                    },
                },
            }
        }
    }
}

} // verus!
