//! Whitespace trimming over Unicode scalar values.

use vstd::prelude::*;
use vstd::string::*;

verus! {

/// The characters with the Unicode `White_Space` property.
pub open spec fn is_white_space(c: char) -> bool {
    let u = c as u32;
    (0x09 <= u <= 0x0d) || u == 0x20 || u == 0x85 || u == 0xa0 || u == 0x1680
        || (0x2000 <= u <= 0x200a) || u == 0x2028 || u == 0x2029 || u == 0x202f
        || u == 0x205f || u == 0x3000
}

/// Index of the first character at or after `i` that is not white space.
pub open spec fn first_solid(s: Seq<char>, i: int) -> int
    decreases s.len() - i,
{
    if i < 0 || i >= s.len() {
        s.len() as int
    } else if is_white_space(s[i]) {
        first_solid(s, i + 1)
    } else {
        i
    }
}

/// End of `s.subrange(0, j)` once its trailing white space is dropped.
pub open spec fn solid_end(s: Seq<char>, j: int) -> int
    decreases j,
{
    if j <= 0 || j > s.len() {
        0
    } else if is_white_space(s[j - 1]) {
        solid_end(s, j - 1)
    } else {
        j
    }
}

/// `s` without its leading and trailing white space.
pub open spec fn trimmed(s: Seq<char>) -> Seq<char> {
    if first_solid(s, 0) >= s.len() {
        Seq::empty()
    } else {
        s.subrange(first_solid(s, 0), solid_end(s, s.len() as int))
    }
}

/// Whether `s` holds nothing but white space.
pub open spec fn is_blank(s: Seq<char>) -> bool {
    trimmed(s).len() == 0
}

/// Whether `c` has the Unicode `White_Space` property.
pub fn char_is_white_space(c: char) -> (r: bool)
    ensures
        r == is_white_space(c),
{
    let u = c as u32;
    (0x09 <= u && u <= 0x0d) || u == 0x20 || u == 0x85 || u == 0xa0 || u == 0x1680 || (0x2000
        <= u && u <= 0x200a) || u == 0x2028 || u == 0x2029 || u == 0x202f || u == 0x205f || u
        == 0x3000
}

/// Where `solid_end` can land, and that only white space lies past it.
proof fn lemma_solid_end_bounds(s: Seq<char>, j: int)
    requires
        0 <= j <= s.len(),
    ensures
        0 <= solid_end(s, j) <= j,
        solid_end(s, j) > 0 ==> !is_white_space(s[solid_end(s, j) - 1]),
        forall|k: int| solid_end(s, j) <= k < j ==> is_white_space(#[trigger] s[k]),
    decreases j,
{
    if j > 0 && is_white_space(s[j - 1]) {
        lemma_solid_end_bounds(s, j - 1);
    }
}

/// Where `first_solid` can land, and that only white space lies before it.
proof fn lemma_first_solid_bounds(s: Seq<char>, i: int)
    requires
        0 <= i <= s.len(),
    ensures
        i <= first_solid(s, i) <= s.len(),
        first_solid(s, i) < s.len() ==> !is_white_space(s[first_solid(s, i)]),
        forall|k: int| i <= k < first_solid(s, i) ==> is_white_space(#[trigger] s[k]),
    decreases s.len() - i,
{
    if i < s.len() && is_white_space(s[i]) {
        lemma_first_solid_bounds(s, i + 1);
    }
}

/// A blank string is one made of white space alone.
pub proof fn lemma_blank_iff_all_white(s: Seq<char>)
    ensures
        is_blank(s) <==> forall|k: int| 0 <= k < s.len() ==> is_white_space(#[trigger] s[k]),
{
    lemma_first_solid_bounds(s, 0);
    let lo = first_solid(s, 0);
    if lo < s.len() {
        assert(!is_white_space(s[lo]));
        lemma_solid_end_bounds(s, s.len() as int);
        let hi = solid_end(s, s.len() as int);
        if hi <= lo {
            assert(is_white_space(s[lo]));
        }
        assert(trimmed(s).len() == hi - lo);
    }
}

/// The text of `s` without leading and trailing white space.
pub fn trim_text(s: &str) -> (r: String)
    ensures
        r@ == trimmed(s@),
{
    let n = s.unicode_len();
    let mut i: usize = 0;
    while i < n && char_is_white_space(s.get_char(i))
        invariant
            n == s@.len(),
            0 <= i <= n,
            first_solid(s@, i as int) == first_solid(s@, 0),
        decreases n - i,
    {
        i = i + 1;
    }
    if i >= n {
        return String::new();
    }
    assert(first_solid(s@, i as int) == i);
    let mut j: usize = n;
    while j > i + 1 && char_is_white_space(s.get_char(j - 1))
        invariant
            n == s@.len(),
            i < j <= n,
            !is_white_space(s@[i as int]),
            solid_end(s@, j as int) == solid_end(s@, n as int),
        decreases j,
    {
        j = j - 1;
    }
    assert(solid_end(s@, j as int) == j);
    String::from_str(s.substring_char(i, j))
}

/// Whether `s` is empty once trimmed.
pub fn text_is_blank(s: &str) -> (r: bool)
    ensures
        r == is_blank(s@),
{
    let t = trim_text(s);
    t.as_str().unicode_len() == 0
}


/// Relies on `String::push`: appends one character.
#[verifier::external_body]
pub fn push_char(s: &mut String, c: char)
    ensures
        final(s)@ == old(s)@.push(c),
{
    s.push(c);
}

/// Relies on `String::pop`: removes and returns the last character.
#[verifier::external_body]
pub fn pop_char(s: &mut String) -> (r: Option<char>)
    ensures
        old(s)@.len() == 0 ==> r is None && final(s)@ == old(s)@,
        old(s)@.len() > 0 ==> r == Some(old(s)@.last()) && final(s)@ == old(s)@.drop_last(),
{
    s.pop()
}


/// `p` occurs in `s` as a contiguous run.
pub open spec fn is_substring(p: Seq<char>, s: Seq<char>) -> bool {
    exists|i: int| 0 <= i && i + p.len() <= s.len() && #[trigger] s.subrange(i, i + p.len()) == p
}

/// Whether `p` occurs in `s` as a contiguous run.
pub fn contains_text(s: &str, p: &str) -> (r: bool)
    ensures
        r == is_substring(p@, s@),
{
    let n = s.unicode_len();
    let m = p.unicode_len();
    if m > n {
        assert forall|i: int| 0 <= i && i + p@.len() <= s@.len() implies #[trigger] s@.subrange(
            i,
            i + p@.len(),
        ) != p@ by {}
        return false;
    }
    let mut i: usize = 0;
    while i <= n - m
        invariant
            n == s@.len(),
            m == p@.len(),
            m <= n,
            i <= n - m + 1,
            forall|k: int| 0 <= k < i ==> #[trigger] s@.subrange(k, k + m) != p@,
        decreases n - i,
    {
        let mut j: usize = 0;
        while j < m && s.get_char(i + j) == p.get_char(j)
            invariant
                n == s@.len(),
                m == p@.len(),
                i + m <= n,
                j <= m,
                forall|t: int| 0 <= t < j ==> s@[i + t] == p@[t],
            decreases m - j,
        {
            j = j + 1;
        }
        if j == m {
            assert(s@.subrange(i as int, i + m) =~= p@);
            return true;
        }
        assert(s@.subrange(i as int, i + m)[j as int] != p@[j as int]);
        i = i + 1;
    }
    assert forall|k: int| 0 <= k && k + p@.len() <= s@.len() implies #[trigger] s@.subrange(
        k,
        k + p@.len(),
    ) != p@ by {}
    false
}

/// The lowercase form of `s`, as Unicode case mapping gives it.
pub uninterp spec fn lowercase_of(s: Seq<char>) -> Seq<char>;

/// Relies on `str::to_lowercase`: the Unicode lowercase mapping, which depends
/// on the characters alone.
#[verifier::external_body]
pub fn to_lowercase(s: &str) -> (r: String)
    ensures
        r@ == lowercase_of(s@),
{
    s.to_lowercase()
}


/// The first index at or after `i` where `s` holds `c`; `s.len()` if none.
pub open spec fn char_from(s: Seq<char>, c: char, i: int) -> int
    decreases s.len() - i,
{
    if i < 0 || i >= s.len() {
        s.len() as int
    } else if s[i] == c {
        i
    } else {
        char_from(s, c, i + 1)
    }
}

/// The first index at or after `i` where `p` starts in `s`; `s.len()` if none.
pub open spec fn text_from(s: Seq<char>, p: Seq<char>, i: int) -> int
    decreases s.len() + 1 - i,
{
    if i < 0 || i + p.len() > s.len() {
        s.len() as int
    } else if s.subrange(i, i + p.len()) == p {
        i
    } else {
        text_from(s, p, i + 1)
    }
}

/// `s` begins with `p`.
pub open spec fn starts_with(s: Seq<char>, p: Seq<char>) -> bool {
    p.len() <= s.len() && s.take(p.len() as int) == p
}

/// `s` without its leading white space.
pub open spec fn trimmed_start(s: Seq<char>) -> Seq<char> {
    s.subrange(first_solid(s, 0), s.len() as int)
}

/// The first index at or after `from` where `s` holds `c`.
pub fn find_char_from(s: &str, c: char, from: usize) -> (r: Option<usize>)
    requires
        from <= s@.len(),
    ensures
        char_from(s@, c, from as int) < s@.len() ==> r == Some(char_from(s@, c, from as int) as usize),
        char_from(s@, c, from as int) >= s@.len() ==> r is None,
{
    let n = s.unicode_len();
    let mut i: usize = from;
    while i < n
        invariant
            n == s@.len(),
            from <= i <= n,
            char_from(s@, c, i as int) == char_from(s@, c, from as int),
        decreases n - i,
    {
        if s.get_char(i) == c {
            return Some(i);
        }
        i = i + 1;
    }
    None
}

/// The first index at or after `from` where `p` starts in `s`.
pub fn find_text_from(s: &str, p: &str, from: usize) -> (r: Option<usize>)
    requires
        from <= s@.len(),
    ensures
        text_from(s@, p@, from as int) < s@.len() ==> r == Some(text_from(s@, p@, from as int) as usize),
        text_from(s@, p@, from as int) >= s@.len() ==> r is None,
        r is Some ==> r->0 + p@.len() <= s@.len(),
{
    let n = s.unicode_len();
    let m = p.unicode_len();
    if m > n {
        return None;
    }
    let mut i: usize = from;
    while i <= n - m
        invariant
            n == s@.len(),
            m == p@.len(),
            m <= n,
            from <= i,
            i <= n - m + 1 || i == from,
            text_from(s@, p@, i as int) == text_from(s@, p@, from as int),
        decreases n + 1 - i,
    {
        let mut j: usize = 0;
        while j < m && s.get_char(i + j) == p.get_char(j)
            invariant
                n == s@.len(),
                m == p@.len(),
                i + m <= n,
                j <= m,
                forall|t: int| 0 <= t < j ==> s@[i + t] == p@[t],
            decreases m - j,
        {
            j = j + 1;
        }
        if j == m {
            assert(s@.subrange(i as int, i + m) =~= p@);
            if m == 0 && i >= n {
                return None;
            }
            return Some(i);
        }
        assert(s@.subrange(i as int, i + m)[j as int] != p@[j as int]);
        i = i + 1;
    }
    None
}

/// Whether `s` begins with `p`.
pub fn starts_with_text(s: &str, p: &str) -> (r: bool)
    ensures
        r == starts_with(s@, p@),
{
    let n = s.unicode_len();
    let m = p.unicode_len();
    if m > n {
        return false;
    }
    let mut j: usize = 0;
    while j < m
        invariant
            n == s@.len(),
            m == p@.len(),
            m <= n,
            j <= m,
            forall|t: int| 0 <= t < j ==> s@[t] == p@[t],
        decreases m - j,
    {
        if s.get_char(j) != p.get_char(j) {
            assert(s@.take(m as int)[j as int] != p@[j as int]);
            return false;
        }
        j = j + 1;
    }
    assert(s@.take(m as int) =~= p@);
    true
}

/// The text of `s` without leading white space.
pub fn trim_start_text(s: &str) -> (r: String)
    ensures
        r@ == trimmed_start(s@),
{
    let n = s.unicode_len();
    let mut i: usize = 0;
    while i < n && char_is_white_space(s.get_char(i))
        invariant
            n == s@.len(),
            0 <= i <= n,
            first_solid(s@, i as int) == first_solid(s@, 0),
        decreases n - i,
    {
        i = i + 1;
    }
    String::from_str(s.substring_char(i, n))
}


/// `char_from` finds `c` exactly when `s` holds it at or after `i`.
pub proof fn lemma_char_from_finds(s: Seq<char>, c: char, i: int)
    requires
        0 <= i <= s.len(),
    ensures
        i <= char_from(s, c, i) <= s.len(),
        char_from(s, c, i) < s.len() <==> exists|k: int| i <= k < s.len() && s[k] == c,
        char_from(s, c, i) < s.len() ==> s[char_from(s, c, i)] == c,
        forall|k: int| i <= k < char_from(s, c, i) ==> s[k] != c,
    decreases s.len() - i,
{
    if i < s.len() && s[i] != c {
        lemma_char_from_finds(s, c, i + 1);
        if exists|k: int| i <= k < s.len() && s[k] == c {
            let k = choose|k: int| i <= k < s.len() && s[k] == c;
            assert(i + 1 <= k);
        }
    }
}


/// Whether `a` and `b` hold the same characters.
pub fn text_eq(a: &str, b: &str) -> (r: bool)
    ensures
        r == (a@ == b@),
{
    let n = a.unicode_len();
    if n != b.unicode_len() {
        return false;
    }
    let mut i: usize = 0;
    while i < n
        invariant
            n == a@.len(),
            n == b@.len(),
            i <= n,
            forall|k: int| 0 <= k < i ==> a@[k] == b@[k],
        decreases n - i,
    {
        if a.get_char(i) != b.get_char(i) {
            return false;
        }
        i = i + 1;
    }
    assert(a@ =~= b@);
    true
}


/// Where `text_from` can land, and that a found occurrence fits in `s`.
pub proof fn lemma_text_from_bounds(s: Seq<char>, p: Seq<char>, i: int)
    requires
        0 <= i <= s.len(),
    ensures
        i <= text_from(s, p, i) <= s.len(),
        text_from(s, p, i) < s.len() ==> text_from(s, p, i) + p.len() <= s.len(),
    decreases s.len() + 1 - i,
{
    if i + p.len() > s.len() {
    } else if s.subrange(i, i + p.len()) == p {
    } else if i < s.len() {
        lemma_text_from_bounds(s, p, i + 1);
    } else {
        assert(s.subrange(i, i + p.len()) =~= p);
    }
}

/// `s` from index `i` on, with every occurrence of the non-empty `p`
/// replaced by `w`, scanning left to right.
pub open spec fn replaced_from(s: Seq<char>, p: Seq<char>, w: Seq<char>, i: int) -> Seq<char>
    decreases s.len() + 1 - i,
{
    if p.len() == 0 || i < 0 || i > s.len() {
        s.subrange(i, s.len() as int)
    } else {
        let k = text_from(s, p, i);
        if k < i || k + p.len() > s.len() {
            s.subrange(i, s.len() as int)
        } else {
            s.subrange(i, k) + w + replaced_from(s, p, w, k + p.len())
        }
    }
}

/// `s` with every occurrence of `p` replaced by `w`; `s` itself for an empty `p`.
pub open spec fn replaced(s: Seq<char>, p: Seq<char>, w: Seq<char>) -> Seq<char> {
    replaced_from(s, p, w, 0)
}

/// `s` with every occurrence of `p` replaced by `w`.
pub fn replace_text(s: &str, p: &str, w: &str) -> (r: String)
    ensures
        r@ == replaced(s@, p@, w@),
{
    let n = s.unicode_len();
    let m = p.unicode_len();
    if m == 0 {
        assert(s@.subrange(0, n as int) =~= s@);
        return String::from_str(s);
    }
    let mut out = String::new();
    let mut i: usize = 0;
    loop
        invariant
            n == s@.len(),
            m == p@.len(),
            m > 0,
            i <= n,
            out@ + replaced_from(s@, p@, w@, i as int) == replaced(s@, p@, w@),
        decreases n - i,
    {
        proof {
            lemma_text_from_bounds(s@, p@, i as int);
        }
        match find_text_from(s, p, i) {
            Some(k) => {
                out.append(s.substring_char(i, k));
                out.append(w);
                assert(out@ + replaced_from(s@, p@, w@, k + m) =~= replaced(s@, p@, w@));
                i = k + m;
            },
            None => {
                out.append(s.substring_char(i, n));
                assert(out@ =~= replaced(s@, p@, w@));
                return out;
            },
        }
    }
}

} // verus!
