use vstd::prelude::*;
use vstd::string::*;
use crate::text::chars_of;

verus! {

/// The grammar by which a path is read: which characters part its components and
/// whether a drive letter may stand in front.
#[derive(Clone, Copy, Debug, PartialEq, Eq, Structural)]
pub enum PathStyle {
    /// `/` parts the components.
    Posix,
    /// `/` and `\` part the components; a letter and a colon in front name a drive.
    Windows,
}

/// Whether `c` parts two components of a path.
pub open spec fn is_separator(style: PathStyle, c: char) -> bool {
    c == '/' || (style == PathStyle::Windows && c == '\\')
}

/// The character that `join` puts between a directory and a name.
pub open spec fn primary_separator(style: PathStyle) -> char {
    if style == PathStyle::Windows {
        '\\'
    } else {
        '/'
    }
}

/// Whether `c` can name a drive: a letter of the Latin alphabet.
pub open spec fn is_drive_letter(c: char) -> bool {
    ('a' <= c && c <= 'z') || ('A' <= c && c <= 'Z')
}

/// Length of the drive prefix of `s`: 2 for a letter and a colon under the Windows
/// style, else 0.
pub open spec fn prefix_len(style: PathStyle, s: Seq<char>) -> int {
    if style == PathStyle::Windows && s.len() >= 2 && is_drive_letter(s[0]) && s[1] == ':' {
        2
    } else {
        0
    }
}

/// Whether a separator follows the prefix, which makes the path start at a root.
pub open spec fn has_root(style: PathStyle, s: Seq<char>) -> bool {
    let p = prefix_len(style, s);
    p < s.len() && is_separator(style, s[p])
}

/// Whether the path starts, after its prefix, with a component `.` of its own.
pub open spec fn leads_with_current(style: PathStyle, s: Seq<char>) -> bool {
    let p = prefix_len(style, s);
    &&& !has_root(style, s)
    &&& p < s.len()
    &&& s[p] == '.'
    &&& (p + 1 == s.len() || is_separator(style, s[p + 1]))
}

/// Where the body of the path begins: after the prefix and after the root or the
/// leading `.`, whichever is there. What lies before is never part of a name.
pub open spec fn anchor(style: PathStyle, s: Seq<char>) -> int {
    prefix_len(style, s) + if has_root(style, s) || leads_with_current(style, s) {
        1int
    } else {
        0int
    }
}

/// Whether the character at `i` is a component `.` by itself inside the body.
/// Such components are passed over as if they were separators.
pub open spec fn lone_dot(style: PathStyle, s: Seq<char>, i: int) -> bool {
    &&& s[i] == '.'
    &&& (i == anchor(style, s) || is_separator(style, s[i - 1]))
    &&& (i + 1 == s.len() || is_separator(style, s[i + 1]))
}

/// Whether the character at `i` belongs to a component of the body that counts.
pub open spec fn significant(style: PathStyle, s: Seq<char>, i: int) -> bool {
    &&& anchor(style, s) <= i < s.len()
    &&& !is_separator(style, s[i])
    &&& !lone_dot(style, s, i)
}

/// One past the last significant character before `hi`, or the anchor if there is none.
pub open spec fn component_end(style: PathStyle, s: Seq<char>, hi: int) -> int
    decreases hi,
{
    if hi <= anchor(style, s) {
        anchor(style, s)
    } else if significant(style, s, hi - 1) {
        hi
    } else {
        component_end(style, s, hi - 1)
    }
}

/// Where the component that ends at `end` begins: after the nearest separator
/// before `end`, or at the anchor.
pub open spec fn component_start(style: PathStyle, s: Seq<char>, end: int) -> int
    decreases end,
{
    if end <= anchor(style, s) || is_separator(style, s[end - 1]) {
        end
    } else {
        component_start(style, s, end - 1)
    }
}

/// The name `..`, which stands for the directory above and names no entry.
pub open spec fn parent_marker() -> Seq<char> {
    seq!['.', '.']
}

/// A path's directory and its last name. `None` where the path names no entry of
/// a directory: the empty path, a root, a bare drive, `.`, and a path that ends in `..`.
/// Separators and `.` components after the name are passed over. The directory is
/// the part of `s` up to the end of the component before the name, so it is `""`
/// for a bare name and keeps the root for an entry of the root.
pub open spec fn split(style: PathStyle, s: Seq<char>) -> Option<(Seq<char>, Seq<char>)> {
    let end = component_end(style, s, s.len() as int);
    let start = component_start(style, s, end);
    let name = s.subrange(start, end);
    if end <= anchor(style, s) || name == parent_marker() {
        None
    } else {
        Some((s.subrange(0, component_end(style, s, start)), name))
    }
}

/// The directory that `split` gives, or the empty path where it gives none.
pub open spec fn directory_of(style: PathStyle, s: Seq<char>) -> Seq<char> {
    match split(style, s) {
        Some(parts) => parts.0,
        None => Seq::empty(),
    }
}

/// The name that `split` gives, or the empty name where it gives none.
pub open spec fn name_of(style: PathStyle, s: Seq<char>) -> Seq<char> {
    match split(style, s) {
        Some(parts) => parts.1,
        None => Seq::empty(),
    }
}

/// Position of the last `.` of `name` before `hi`, or -1.
pub open spec fn last_dot(name: Seq<char>, hi: int) -> int
    decreases hi,
{
    if hi <= 0 {
        -1
    } else if name[hi - 1] == '.' {
        hi - 1
    } else {
        last_dot(name, hi - 1)
    }
}

/// A name without its extension: what stands before the last `.`. A name without
/// a `.`, one whose only `.` is its first character, and `..` are their own stem.
pub open spec fn stem(name: Seq<char>) -> Seq<char> {
    let dot = last_dot(name, name.len() as int);
    if dot <= 0 || name == parent_marker() {
        name
    } else {
        name.subrange(0, dot)
    }
}

/// Whether `join` must put a separator after `dir`: not after the empty path, a
/// separator, or a bare drive.
pub open spec fn needs_separator(style: PathStyle, dir: Seq<char>) -> bool {
    &&& dir.len() > 0
    &&& !is_separator(style, dir.last())
    &&& prefix_len(style, dir) != dir.len()
}

/// The path of the entry `name` in the directory `dir`.
pub open spec fn join(style: PathStyle, dir: Seq<char>, name: Seq<char>) -> Seq<char> {
    if needs_separator(style, dir) {
        dir.push(primary_separator(style)) + name
    } else {
        dir + name
    }
}

/// Whether `c` parts two components of a path.
pub fn separates(style: PathStyle, c: char) -> (r: bool)
    ensures
        r == is_separator(style, c),
{
    c == '/' || (style == PathStyle::Windows && c == '\\')
}

fn drive_letter(c: char) -> (r: bool)
    ensures
        r == is_drive_letter(c),
{
    ('a' <= c && c <= 'z') || ('A' <= c && c <= 'Z')
}

fn prefix_of(style: PathStyle, s: &Vec<char>) -> (p: usize)
    ensures
        p == prefix_len(style, s@),
        p <= s.len(),
{
    if style == PathStyle::Windows && s.len() >= 2 && drive_letter(s[0]) && s[1] == ':' {
        2
    } else {
        0
    }
}

fn anchor_of(style: PathStyle, s: &Vec<char>) -> (a: usize)
    ensures
        a == anchor(style, s@),
        a <= s.len(),
{
    let p = prefix_of(style, s);
    if p < s.len() && separates(style, s[p]) {
        p + 1
    } else if p < s.len() && s[p] == '.' && (p + 1 == s.len() || separates(style, s[p + 1])) {
        p + 1
    } else {
        p
    }
}

fn counts(style: PathStyle, s: &Vec<char>, a: usize, i: usize) -> (r: bool)
    requires
        a == anchor(style, s@),
        a <= i < s.len(),
    ensures
        r == significant(style, s@, i as int),
{
    if separates(style, s[i]) {
        return false;
    }
    let alone = s[i] == '.' && (i == a || separates(style, s[i - 1])) && (i + 1 == s.len()
        || separates(style, s[i + 1]));
    !alone
}

fn end_before(style: PathStyle, s: &Vec<char>, a: usize, hi: usize) -> (end: usize)
    requires
        a == anchor(style, s@),
        hi <= s.len(),
    ensures
        end == component_end(style, s@, hi as int),
        a <= end,
        end <= hi || end == a,
        end > a ==> significant(style, s@, end - 1),
{
    let mut end: usize = hi;
    while end > a && !counts(style, s, a, end - 1)
        invariant
            a == anchor(style, s@),
            end <= hi <= s.len(),
            component_end(style, s@, end as int) == component_end(style, s@, hi as int),
        decreases end,
    {
        end = end - 1;
    }
    if end <= a {
        a
    } else {
        end
    }
}

fn start_of(style: PathStyle, s: &Vec<char>, a: usize, end: usize) -> (start: usize)
    requires
        a == anchor(style, s@),
        a <= end <= s.len(),
    ensures
        start == component_start(style, s@, end as int),
        a <= start <= end,
{
    let mut start: usize = end;
    while start > a && !separates(style, s[start - 1])
        invariant
            a == anchor(style, s@),
            a <= start <= end <= s.len(),
            component_start(style, s@, start as int) == component_start(style, s@, end as int),
        decreases start,
    {
        start = start - 1;
    }
    start
}

/// The characters of an optional pair of strings.
pub open spec fn parts_view(parts: Option<(String, String)>) -> Option<(Seq<char>, Seq<char>)> {
    match parts {
        Some(pair) => Some((pair.0@, pair.1@)),
        None => None,
    }
}

/// Splits `path` into the directory and the last name (see `split`).
pub fn split_path(style: PathStyle, path: &str) -> (parts: Option<(String, String)>)
    ensures
        parts_view(parts) == split(style, path@),
{
    let s = chars_of(path);
    let a = anchor_of(style, &s);
    let end = end_before(style, &s, a, s.len());
    if end <= a {
        return None;
    }
    let start = start_of(style, &s, a, end);
    if end - start == 2 && s[start] == '.' && s[start + 1] == '.' {
        assert(path@.subrange(start as int, end as int) =~= parent_marker());
        return None;
    }
    proof {
        let name = path@.subrange(start as int, end as int);
        if name == parent_marker() {
            assert(name.len() == 2);
            assert(name[0] == '.' && name[1] == '.');
        }
    }
    let dir_end = end_before(style, &s, a, start);
    let dir = String::from_str(path.substring_char(0, dir_end));
    let name = String::from_str(path.substring_char(start, end));
    Some((dir, name))
}

/// The stem of `name` (see `stem`).
pub fn file_stem(name: &str) -> (out: String)
    ensures
        out@ == stem(name@),
{
    let s = chars_of(name);
    let mut hi: usize = s.len();
    while hi > 0 && s[hi - 1] != '.'
        invariant
            hi <= s.len(),
            last_dot(s@, hi as int) == last_dot(s@, s.len() as int),
        decreases hi,
    {
        hi = hi - 1;
    }
    if hi <= 1 {
        return String::from_str(name);
    }
    if s.len() == 2 && s[0] == '.' {
        assert(s@ =~= parent_marker());
        return String::from_str(name);
    }
    proof {
        if s@ == parent_marker() {
            assert(s@.len() == 2 && s@[0] == '.');
        }
    }
    String::from_str(name.substring_char(0, hi - 1))
}

/// The path of the entry `name` in the directory `dir` (see `join`).
pub fn join_path(style: PathStyle, dir: &str, name: &str) -> (out: String)
    ensures
        out@ == join(style, dir@, name@),
{
    let d = chars_of(dir);
    let mut out = String::from_str(dir);
    let p = prefix_of(style, &d);
    if d.len() > 0 && !separates(style, d[d.len() - 1]) && p != d.len() {
        match style {
            PathStyle::Windows => {
                proof {
                    reveal_strlit("\\");
                }
                out.append("\\");
                assert(out@ =~= dir@.push('\\'));
            },
            PathStyle::Posix => {
                proof {
                    reveal_strlit("/");
                }
                out.append("/");
                assert(out@ =~= dir@.push('/'));
            },
        }
    }
    out.append(name);
    out
}

} // verus!
