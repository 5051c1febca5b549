//! Path-string helpers: locating the file-name component of a path,
//! extracting its extension, and the case-insensitive allowlist of
//! markdown-related extensions.
//!
//! Paths are treated as plain character sequences with `/` as the
//! component separator; canonical paths handed back by the host are
//! always in that form. As with std's `Path`, a trailing run of
//! separators does not count: the file-name component of `/a/b.md/`
//! is `b.md`.

use vstd::prelude::*;

verus! {

/// Lower-cases one ASCII letter; every other character is unchanged.
pub open spec fn lower_char(c: char) -> char {
    if 65 <= c as u32 && c as u32 <= 90 {
        ((c as u32 + 32) as u8) as char
    } else {
        c
    }
}

/// ASCII lower-casing of a character sequence.
pub open spec fn lower(s: Seq<char>) -> Seq<char> {
    s.map_values(|c: char| lower_char(c))
}

/// Index of the last occurrence of `c` in `s`, or -1 when `s` does not
/// contain `c`.
pub open spec fn last_pos(s: Seq<char>, c: char) -> int
    decreases s.len(),
{
    if s.len() == 0 {
        -1
    } else if s.last() == c {
        s.len() - 1
    } else {
        last_pos(s.drop_last(), c)
    }
}

/// `last_pos` stays within bounds and, when it points somewhere, points
/// at the last occurrence.
pub proof fn lemma_last_pos(s: Seq<char>, c: char)
    ensures
        -1 <= last_pos(s, c) < s.len(),
        last_pos(s, c) >= 0 ==> s[last_pos(s, c)] == c,
        forall|j: int| last_pos(s, c) < j < s.len() ==> s[j] != c,
    decreases s.len(),
{
    if s.len() > 0 && s.last() != c {
        lemma_last_pos(s.drop_last(), c);
        assert forall|j: int| last_pos(s, c) < j < s.len() implies s[j] != c by {
            if j < s.len() - 1 {
                assert(s.drop_last()[j] == s[j]);
            }
        }
    }
}

/// An index that holds `c` with no occurrence of `c` after it is
/// exactly `last_pos`.
pub proof fn lemma_last_pos_found(s: Seq<char>, c: char, k: int)
    requires
        0 <= k < s.len(),
        s[k] == c,
        forall|j: int| k < j < s.len() ==> s[j] != c,
    ensures
        last_pos(s, c) == k,
    decreases s.len(),
{
    if k < s.len() - 1 {
        assert(s.last() != c);
        assert(s.drop_last()[k] == s[k]);
        assert forall|j: int| k < j < s.drop_last().len() implies s.drop_last()[j] != c by {
            assert(s.drop_last()[j] == s[j]);
        }
        lemma_last_pos_found(s.drop_last(), c, k);
    }
}

/// When `c` occurs nowhere in `s`, `last_pos` is -1.
pub proof fn lemma_last_pos_absent(s: Seq<char>, c: char)
    requires
        forall|j: int| 0 <= j < s.len() ==> s[j] != c,
    ensures
        last_pos(s, c) == -1,
    decreases s.len(),
{
    if s.len() > 0 {
        assert forall|j: int| 0 <= j < s.drop_last().len() implies s.drop_last()[j] != c by {
            assert(s.drop_last()[j] == s[j]);
        }
        lemma_last_pos_absent(s.drop_last(), c);
    }
}

/// Index of the last occurrence of `c` in `s`, if there is one.
fn find_last(s: &str, c: char) -> (r: Option<usize>)
    ensures
        match r {
            Some(i) => i < s@.len() && last_pos(s@, c) == i,
            None => last_pos(s@, c) == -1,
        },
{
    let n = s.unicode_len();
    let mut i = n;
    while i > 0
        invariant
            i <= n,
            n == s@.len(),
            forall|j: int| i <= j < n ==> s@[j] != c,
        decreases i,
    {
        i = i - 1;
        if s.get_char(i) == c {
            proof {
                lemma_last_pos_found(s@, c, i as int);
            }
            return Some(i);
        }
    }
    proof {
        lemma_last_pos_absent(s@, c);
    }
    None
}

/// `p` without its trailing run of separators.
pub open spec fn trim_trailing_seps(p: Seq<char>) -> Seq<char>
    decreases p.len(),
{
    if p.len() > 0 && p.last() == '/' {
        trim_trailing_seps(p.drop_last())
    } else {
        p
    }
}

/// The file-name component of `p`: everything after the last `/` once
/// trailing separators are disregarded, or all of `p` when it has no
/// separator.
pub open spec fn file_name_part(p: Seq<char>) -> Seq<char> {
    let q = trim_trailing_seps(p);
    q.subrange(last_pos(q, '/') + 1, q.len() as int)
}

/// The parent component of `p`, trailing separators disregarded:
/// everything before the last `/`; the root when that separator
/// leads; empty when there is no separator.
pub open spec fn parent_part(p: Seq<char>) -> Seq<char> {
    let q = trim_trailing_seps(p);
    let k = last_pos(q, '/');
    if k == 0 {
        seq!['/']
    } else if k > 0 {
        q.subrange(0, k)
    } else {
        Seq::empty()
    }
}

/// The extension of the file-name component: what follows its last
/// `.`, provided that dot is neither its first character nor missing.
pub open spec fn extension_part(p: Seq<char>) -> Option<Seq<char>> {
    let name = file_name_part(p);
    let d = last_pos(name, '.');
    if d > 0 {
        Some(name.subrange(d + 1, name.len() as int))
    } else {
        None
    }
}

/// The fixed allowlist of markdown-related file extensions.
pub open spec fn allowed_extensions() -> Seq<Seq<char>> {
    seq!["md"@, "markdown"@, "mdx"@, "mdown"@, "txt"@]
}

/// Case-insensitive membership in the extension allowlist.
pub open spec fn is_allowed_extension(e: Seq<char>) -> bool {
    allowed_extensions().contains(lower(e))
}

/// Whether the extension of `p` (lower-cased) is allowlisted.
pub open spec fn path_has_allowed_extension(p: Seq<char>) -> bool {
    match extension_part(p) {
        Some(e) => is_allowed_extension(e),
        None => false,
    }
}

/// The file-name component never contains a separator.
pub proof fn lemma_file_name_no_separator(p: Seq<char>)
    ensures
        forall|j: int| 0 <= j < file_name_part(p).len() ==> file_name_part(p)[j] != '/',
{
    let q = trim_trailing_seps(p);
    lemma_last_pos(q, '/');
    assert forall|j: int| 0 <= j < file_name_part(p).len() implies file_name_part(p)[j] != '/' by {
        assert(file_name_part(p)[j] == q[last_pos(q, '/') + 1 + j]);
    }
}

/// `s` without its trailing run of separators.
fn trim_seps(s: &str) -> (r: &str)
    ensures
        r@ == trim_trailing_seps(s@),
{
    let n = s.unicode_len();
    let mut end = n;
    proof {
        assert(s@.subrange(0, n as int) =~= s@);
    }
    while end > 0 && s.get_char(end - 1) == '/'
        invariant
            end <= n,
            n == s@.len(),
            trim_trailing_seps(s@) == trim_trailing_seps(s@.subrange(0, end as int)),
        decreases end,
    {
        proof {
            assert(s@.subrange(0, end as int).drop_last() =~= s@.subrange(0, end as int - 1));
        }
        end = end - 1;
    }
    let r = s.substring_char(0, end);
    proof {
        if end > 0 {
            assert(s@.subrange(0, end as int).last() == s@[end as int - 1]);
        }
        assert(trim_trailing_seps(s@.subrange(0, end as int)) == s@.subrange(0, end as int));
    }
    r
}

fn lower_char_exec(c: char) -> (r: char)
    ensures
        r == lower_char(c),
{
    let u = c as u32;
    if 65 <= u && u <= 90 {
        ((u + 32) as u8) as char
    } else {
        c
    }
}

/// Case-insensitive (ASCII) equality of two strings.
fn eq_ignore_ascii_case(a: &str, b: &str) -> (r: bool)
    ensures
        r == (lower(a@) == lower(b@)),
{
    let na = a.unicode_len();
    let nb = b.unicode_len();
    if na != nb {
        proof {
            assert(lower(a@).len() != lower(b@).len());
        }
        return false;
    }
    let mut i: usize = 0;
    while i < na
        invariant
            i <= na,
            na == a@.len(),
            nb == b@.len(),
            na == nb,
            forall|j: int| 0 <= j < i ==> lower_char(a@[j]) == lower_char(b@[j]),
        decreases na - i,
    {
        if lower_char_exec(a.get_char(i)) != lower_char_exec(b.get_char(i)) {
            proof {
                assert(lower(a@)[i as int] != lower(b@)[i as int]);
            }
            return false;
        }
        i = i + 1;
    }
    proof {
        assert(lower(a@) =~= lower(b@));
    }
    true
}

/// Every entry of the allowlist is already lower-case.
proof fn lemma_allowlist_lowercase()
    ensures
        lower("md"@) == "md"@,
        lower("markdown"@) == "markdown"@,
        lower("mdx"@) == "mdx"@,
        lower("mdown"@) == "mdown"@,
        lower("txt"@) == "txt"@,
{
    reveal_strlit("md");
    reveal_strlit("markdown");
    reveal_strlit("mdx");
    reveal_strlit("mdown");
    reveal_strlit("txt");
    assert(lower("md"@) =~= "md"@);
    assert(lower("markdown"@) =~= "markdown"@);
    assert(lower("mdx"@) =~= "mdx"@);
    assert(lower("mdown"@) =~= "mdown"@);
    assert(lower("txt"@) =~= "txt"@);
}

/// Membership in the allowlist, spelt out entry by entry.
proof fn lemma_allowed_iff(e: Seq<char>)
    ensures
        is_allowed_extension(e) <==> {
            ||| lower(e) == lower("md"@)
            ||| lower(e) == lower("markdown"@)
            ||| lower(e) == lower("mdx"@)
            ||| lower(e) == lower("mdown"@)
            ||| lower(e) == lower("txt"@)
        },
{
    lemma_allowlist_lowercase();
    if is_allowed_extension(e) {
        let i = choose|i: int|
            0 <= i < allowed_extensions().len() && allowed_extensions()[i] == lower(e);
        assert(0 <= i < 5);
    }
    if lower(e) == "md"@ {
        assert(allowed_extensions()[0] == lower(e));
    }
    if lower(e) == "markdown"@ {
        assert(allowed_extensions()[1] == lower(e));
    }
    if lower(e) == "mdx"@ {
        assert(allowed_extensions()[2] == lower(e));
    }
    if lower(e) == "mdown"@ {
        assert(allowed_extensions()[3] == lower(e));
    }
    if lower(e) == "txt"@ {
        assert(allowed_extensions()[4] == lower(e));
    }
}

/// Checks whether the path's extension, compared without regard to
/// ASCII case, is one of `md`, `markdown`, `mdx`, `mdown`, `txt`.
pub fn has_allowed_extension(path: &str) -> (b: bool)
    ensures
        b == path_has_allowed_extension(path@),
{
    let trimmed = trim_seps(path);
    let n = trimmed.unicode_len();
    let start = match find_last(trimmed, '/') {
        Some(i) => i + 1,
        None => 0,
    };
    let name = trimmed.substring_char(start, n);
    assert(name@ == file_name_part(path@));
    let m = name.unicode_len();
    let d = match find_last(name, '.') {
        Some(d) => d,
        None => {
            return false;
        },
    };
    if d == 0 {
        return false;
    }
    let ext = name.substring_char(d + 1, m);
    assert(Some(ext@) == extension_part(path@));
    let b = eq_ignore_ascii_case(ext, "md") || eq_ignore_ascii_case(ext, "markdown")
        || eq_ignore_ascii_case(ext, "mdx") || eq_ignore_ascii_case(ext, "mdown")
        || eq_ignore_ascii_case(ext, "txt");
    proof {
        lemma_allowed_iff(ext@);
    }
    b
}

/// The file-name component of `path`, as a fresh string.
pub fn file_name_of(path: &str) -> (r: String)
    ensures
        r@ == file_name_part(path@),
{
    let trimmed = trim_seps(path);
    let n = trimmed.unicode_len();
    let start = match find_last(trimmed, '/') {
        Some(i) => i + 1,
        None => 0,
    };
    String::from_str(trimmed.substring_char(start, n))
}

/// The parent component of `path`, as a fresh string.
pub fn parent_of(path: &str) -> (r: String)
    ensures
        r@ == parent_part(path@),
{
    let trimmed = trim_seps(path);
    match find_last(trimmed, '/') {
        Some(i) => {
            if i == 0 {
                let r = String::from_str("/");
                proof {
                    reveal_strlit("/");
                    assert(r@ =~= seq!['/']);
                }
                r
            } else {
                String::from_str(trimmed.substring_char(0, i))
            }
        },
        None => String::new(),
    }
}

/// A directory path joined with a file name: exactly one `/` stands
/// between them.
pub open spec fn joined_path(parent: Seq<char>, name: Seq<char>) -> Seq<char> {
    if parent.len() > 0 && parent.last() == '/' {
        parent + name
    } else {
        parent + seq!['/'] + name
    }
}

/// Joins a directory path and a file name.
pub fn join_path(parent: &str, name: &str) -> (r: String)
    ensures
        r@ == joined_path(parent@, name@),
{
    let n = parent.unicode_len();
    if n > 0 && parent.get_char(n - 1) == '/' {
        String::from_str(parent).concat(name)
    } else {
        let r = String::from_str(parent).concat("/").concat(name);
        proof {
            reveal_strlit("/");
            assert(r@ =~= parent@ + seq!['/'] + name@);
        }
        r
    }
}

} // verus!
