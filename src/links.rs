//! Web addresses for an icon: its page on the icon explorer and its SVG
//! preview on the catalog's API.

use vstd::prelude::*;
use vstd::string::*;
use crate::text::push_char;

verus! {

/// `k` is the index of the first `:` in `s`.
pub open spec fn first_colon_at(s: Seq<char>, k: int) -> bool {
    &&& 0 <= k < s.len()
    &&& s[k] == ':'
    &&& forall|j: int| 0 <= j < k ==> s[j] != ':'
}

/// Whether `s` holds no `:` at all.
pub open spec fn has_no_colon(s: Seq<char>) -> bool {
    forall|j: int| 0 <= j < s.len() ==> s[j] != ':'
}

/// The index of the first `:` in `s`, if any.
fn find_colon(s: &str) -> (r: Option<usize>)
    ensures
        match r {
            Some(k) => first_colon_at(s@, k as int),
            None => has_no_colon(s@),
        },
{
    let n = s.unicode_len();
    let mut i: usize = 0;
    while i < n
        invariant
            n == s@.len(),
            i <= n,
            forall|j: int| 0 <= j < i ==> s@[j] != ':',
        decreases n - i,
    {
        if s.get_char(i) == ':' {
            return Some(i);
        }
        i = i + 1;
    }
    None
}

/// The explorer page of an icon named `prefix:icon`, with the icon highlighted.
pub open spec fn icones_url_of(name: Seq<char>, k: int) -> Seq<char> {
    "https://icones.js.org/collection/"@ + name.take(k) + "?icon="@ + name
}

/// The explorer page of the icon `icon_name`, or `None` where the name has
/// no `:` to split its collection prefix off.
pub fn icones_collection_url(icon_name: &str) -> (r: Option<String>)
    ensures
        match r {
            Some(u) => exists|k: int| first_colon_at(icon_name@, k) && u@ == icones_url_of(icon_name@, k),
            None => has_no_colon(icon_name@),
        },
{
    match find_colon(icon_name) {
        None => None,
        Some(k) => {
            let mut u = String::from_str("https://icones.js.org/collection/");
            u.append(icon_name.substring_char(0, k));
            u.append("?icon=");
            u.append(icon_name);
            assert(u@ =~= icones_url_of(icon_name@, k as int));
            Some(u)
        },
    }
}

/// `s` with each `:` written as `%3A`.
pub open spec fn encode_colons(s: Seq<char>) -> Seq<char>
    decreases s.len(),
{
    if s.len() == 0 {
        Seq::empty()
    } else {
        encode_colons(s.drop_last()) + if s.last() == ':' {
            seq!['%', '3', 'A']
        } else {
            seq![s.last()]
        }
    }
}

/// Whether a file stem names a catalog icon: a non-empty collection prefix,
/// a `:`, and a non-empty icon name.
pub open spec fn is_icon_name(stem: Seq<char>) -> bool {
    exists|k: int| first_colon_at(stem, k) && 0 < k && k + 1 < stem.len()
}

/// The preview address of the icon that a file stem names.
pub open spec fn preview_url_of(stem: Seq<char>) -> Seq<char> {
    "https://api.iconify.design/"@ + encode_colons(stem) + ".svg"@
}

/// The SVG preview address for a file whose stem is `stem`, where the stem
/// names a catalog icon.
pub fn web_preview_url_for_stem(stem: &str) -> (r: Option<String>)
    ensures
        is_icon_name(stem@) ==> r is Some && r->0@ == preview_url_of(stem@),
        !is_icon_name(stem@) ==> r is None,
{
    let n = stem.unicode_len();
    match find_colon(stem) {
        None => {
            return None;
        },
        Some(k) => {
            if k == 0 || k + 1 >= n {
                return None;
            }
        },
    }
    let mut u = String::from_str("https://api.iconify.design/");
    let ghost base = u@;
    let mut i: usize = 0;
    while i < n
        invariant
            n == stem@.len(),
            i <= n,
            base == "https://api.iconify.design/"@,
            u@ == base + encode_colons(stem@.take(i as int)),
        decreases n - i,
    {
        let c = stem.get_char(i);
        if c == ':' {
            u.append("%3A");
            proof {
                reveal_strlit("%3A");
            }
        } else {
            push_char(&mut u, c);
        }
        proof {
            assert(stem@.take(i + 1).drop_last() =~= stem@.take(i as int));
        }
        i = i + 1;
        assert(u@ =~= base + encode_colons(stem@.take(i as int)));
    }
    u.append(".svg");
    assert(stem@.take(n as int) =~= stem@);
    Some(u)
}

/// Relies on `std::path::Path::file_stem`: the final file name of `path`
/// without its extension, where there is one.
#[verifier::external_body]
pub(crate) fn path_file_stem(path: &str) -> Option<String> {
    std::path::Path::new(path).file_stem().map(|s| s.to_string_lossy().into_owned())
}

/// The SVG preview address for the icon file at `svg_path`, where its stem
/// names a catalog icon.
pub fn iconify_web_preview_url(svg_path: &str) -> (r: Option<String>)
    ensures
        r is Some ==> exists|stem: Seq<char>| is_icon_name(stem) && r->0@ == preview_url_of(stem),
{
    match path_file_stem(svg_path) {
        Some(stem) => web_preview_url_for_stem(stem.as_str()),
        None => None,
    }
}

} // verus!
