use vstd::prelude::*;
use crate::naming::{archive_in, decrypted_target, encrypted_target, temporary_in};
use crate::path::{
    anchor, component_end, component_start, directory_of, has_root, is_separator, join, last_dot,
    leads_with_current, name_of, needs_separator, parent_marker, prefix_len, primary_separator,
    significant, split, stem, PathStyle,
};

verus! {

/// An extension that can be put behind a name and taken off again: a `.`
/// followed by one or more characters, none of them a `.`, a `:` or a separator.
pub open spec fn plain_extension(ext: Seq<char>) -> bool {
    &&& ext.len() >= 2
    &&& ext[0] == '.'
    &&& forall|i: int|
        1 <= i < ext.len() ==> ext[i] != '.' && ext[i] != ':' && ext[i] != '/' && ext[i] != '\\'
}

/// Where a component begins: no separator lies in it, and a separator or the
/// anchor lies before it.
pub proof fn lemma_component_start(style: PathStyle, s: Seq<char>, end: int)
    requires
        anchor(style, s) <= end <= s.len(),
    ensures
        anchor(style, s) <= component_start(style, s, end) <= end,
        forall|i: int|
            component_start(style, s, end) <= i < end ==> !is_separator(style, #[trigger] s[i]),
        component_start(style, s, end) == anchor(style, s) || is_separator(
            style,
            s[component_start(style, s, end) - 1],
        ),
    decreases end,
{
    if end > anchor(style, s) && !is_separator(style, s[end - 1]) {
        lemma_component_start(style, s, end - 1);
    }
}

/// The start of a component is the one place that has no separator after it up
/// to the end and a separator or the anchor before it.
pub proof fn lemma_component_start_is(style: PathStyle, s: Seq<char>, end: int, start: int)
    requires
        anchor(style, s) <= start <= end <= s.len(),
        forall|i: int| start <= i < end ==> !is_separator(style, #[trigger] s[i]),
        start == anchor(style, s) || is_separator(style, s[start - 1]),
    ensures
        component_start(style, s, end) == start,
    decreases end,
{
    if end > start {
        assert(!is_separator(style, s[end - 1]));
        lemma_component_start_is(style, s, end - 1, start);
    }
}

/// Where the last component before `hi` ends: at a significant character, with
/// none between it and `hi`.
pub proof fn lemma_component_end(style: PathStyle, s: Seq<char>, hi: int)
    requires
        anchor(style, s) <= hi <= s.len(),
    ensures
        anchor(style, s) <= component_end(style, s, hi) <= hi,
        component_end(style, s, hi) > anchor(style, s) ==> significant(
            style,
            s,
            component_end(style, s, hi) - 1,
        ),
        forall|i: int| component_end(style, s, hi) <= i < hi ==> !significant(style, s, i),
    decreases hi,
{
    if hi > anchor(style, s) && !significant(style, s, hi - 1) {
        lemma_component_end(style, s, hi - 1);
    }
}

/// The end of the last component before `hi` is the one place at a significant
/// character, or at the anchor, with no significant character between it and `hi`.
pub proof fn lemma_component_end_is(style: PathStyle, s: Seq<char>, hi: int, end: int)
    requires
        anchor(style, s) <= end <= hi <= s.len(),
        end == anchor(style, s) || significant(style, s, end - 1),
        forall|i: int| end <= i < hi ==> !significant(style, s, i),
    ensures
        component_end(style, s, hi) == end,
    decreases hi,
{
    if hi > end {
        assert(!significant(style, s, hi - 1));
        lemma_component_end_is(style, s, hi - 1, end);
    }
}

/// The last `.` before `hi` is at `dot` where a `.` stands there and none after it.
pub proof fn lemma_last_dot_is(name: Seq<char>, hi: int, dot: int)
    requires
        0 <= dot < hi <= name.len(),
        name[dot] == '.',
        forall|i: int| dot < i < hi ==> name[i] != '.',
    ensures
        last_dot(name, hi) == dot,
    decreases hi,
{
    if hi - 1 > dot {
        lemma_last_dot_is(name, hi - 1, dot);
    }
}

/// What `split` gives where it gives something: the name is a component of the
/// path, not empty, free of separators, and neither `.` nor `..`; the directory
/// is the path up to the end of the component before it.
pub proof fn lemma_split_parts(style: PathStyle, s: Seq<char>) -> (at: (int, int, int))
    requires
        split(style, s) is Some,
    ensures
        ({
            let (dir_end, start, end) = at;
            let parts = split(style, s)->0;
            &&& anchor(style, s) <= dir_end <= start < end <= s.len()
            &&& parts.0 == s.subrange(0, dir_end)
            &&& parts.1 == s.subrange(start, end)
            &&& parts.1 != parent_marker()
            &&& significant(style, s, end - 1)
            &&& forall|i: int| start <= i < end ==> !is_separator(style, #[trigger] s[i])
            &&& start == anchor(style, s) || is_separator(style, s[start - 1])
            &&& dir_end == anchor(style, s) || significant(style, s, dir_end - 1)
            &&& forall|i: int| dir_end <= i < start ==> !significant(style, s, i)
            &&& dir_end > anchor(style, s) ==> dir_end < start && is_separator(style, s[dir_end])
        }),
{
    let end = component_end(style, s, s.len() as int);
    let a = anchor(style, s);
    assert(a <= s.len());
    lemma_component_end(style, s, s.len() as int);
    let start = component_start(style, s, end);
    lemma_component_start(style, s, end);
    let dir_end = component_end(style, s, start);
    lemma_component_end(style, s, start);
    if start == end {
        assert(is_separator(style, s[end - 1]));
    }
    if dir_end > a {
        if dir_end == start {
            assert(is_separator(style, s[start - 1]));
        }
        assert(!significant(style, s, dir_end));
    }
    (dir_end, start, end)
}

/// Two paths that agree before `k` and are alike at `k` have the same anchor.
/// Here `k` is not before the anchor of `s`; where it is the anchor, what
/// follows in `t` begins with two characters of a name, after a separator
/// exactly where `s` leads with `.`; where it is behind the anchor, both
/// paths have a separator at `k`.
proof fn lemma_same_anchor(style: PathStyle, s: Seq<char>, t: Seq<char>, k: int, gap: int)
    requires
        anchor(style, s) <= k < s.len(),
        0 <= gap <= 1,
        k + gap + 2 <= t.len(),
        forall|i: int| 0 <= i < k ==> t[i] == s[i],
        k > anchor(style, s) ==> is_separator(style, s[k]) && is_separator(style, t[k])
            && !is_separator(style, s[k - 1]),
        k == anchor(style, s) ==> gap == (if leads_with_current(style, s) {
            1int
        } else {
            0int
        }),
        gap == 1 ==> is_separator(style, t[k]),
        !is_separator(style, t[k + gap]),
        !is_separator(style, t[k + gap + 1]),
        k == 0 ==> t[0] == s[0] && (t[1] == '.' || (s.len() >= 2 && t[1] == s[1])),
        k > anchor(style, s) ==> significant(style, s, k - 1),
    ensures
        prefix_len(style, t) == prefix_len(style, s),
        anchor(style, t) == anchor(style, s),
{
    let p = prefix_len(style, s);
    assert(prefix_len(style, t) == p) by {
        if k >= 2 {
            assert(t[0] == s[0] && t[1] == s[1]);
        } else if k == 1 {
            assert(t[0] == s[0]);
        }
    }
    assert(has_root(style, t) == has_root(style, s)) by {
        if p < k {
            assert(t[p] == s[p]);
        }
    }
    assert(leads_with_current(style, t) == leads_with_current(style, s)) by {
        if p < k {
            assert(t[p] == s[p]);
            if p + 1 < k {
                assert(t[p + 1] == s[p + 1]);
            }
        }
    }
}

/// A path that ends in a name of three or more characters, after a directory
/// that ends at `dir_end`, splits into the two.
proof fn lemma_split_at(style: PathStyle, t: Seq<char>, dir_end: int, start: int)
    requires
        anchor(style, t) <= dir_end <= start,
        start + 3 <= t.len(),
        forall|i: int| start <= i < t.len() ==> !is_separator(style, #[trigger] t[i]),
        t[t.len() - 1] != '.',
        start == anchor(style, t) || is_separator(style, t[start - 1]),
        dir_end == anchor(style, t) || significant(style, t, dir_end - 1),
        start == dir_end || (start == dir_end + 1 && is_separator(style, t[dir_end])),
    ensures
        split(style, t) == Some((t.subrange(0, dir_end), t.subrange(start, t.len() as int))),
{
    let n = t.len() as int;
    assert(!is_separator(style, t[n - 1]));
    assert(significant(style, t, n - 1));
    assert(component_end(style, t, n) == n);
    lemma_component_start_is(style, t, n, start);
    assert(t.subrange(start, n).len() >= 3);
    assert(t.subrange(start, n) != parent_marker());
    lemma_component_end_is(style, t, start, dir_end);
}

/// A name with a plain extension behind it, put into the directory that `split`
/// found for the name, splits into that directory and the longer name again.
pub proof fn lemma_split_of_renamed(style: PathStyle, s: Seq<char>, ext: Seq<char>)
    requires
        split(style, s) is Some,
        plain_extension(ext),
    ensures
        split(style, join(style, directory_of(style, s), name_of(style, s) + ext)) == Some(
            (directory_of(style, s), name_of(style, s) + ext),
        ),
{
    let at = lemma_split_parts(style, s);
    let (dir_end, start, end) = at;
    let dir = directory_of(style, s);
    let name = name_of(style, s);
    let leaf = name + ext;
    let t = join(style, dir, leaf);
    let a = anchor(style, s);
    let p = prefix_len(style, s);
    let gap: int = if needs_separator(style, dir) {
        1
    } else {
        0
    };
    let ls = dir_end + gap;
    assert(t.len() == ls + leaf.len());
    assert(forall|i: int| 0 <= i < dir_end ==> t[i] == s[i]);
    assert(forall|j: int| 0 <= j < leaf.len() ==> t[ls + j] == leaf[j]);
    assert(forall|j: int| 0 <= j < leaf.len() ==> !is_separator(style, #[trigger] leaf[j])) by {
        assert forall|j: int| 0 <= j < leaf.len() implies !is_separator(
            style,
            #[trigger] leaf[j],
        ) by {
            if j < name.len() {
                assert(leaf[j] == s[start + j]);
            } else {
                assert(leaf[j] == ext[j - name.len()]);
            }
        }
    }
    assert(leaf[0] == s[start]);
    assert(leaf[1] == if name.len() >= 2 {
        s[start + 1]
    } else {
        ext[0]
    });
    assert(prefix_len(style, dir) == if dir_end >= 2 {
        p
    } else {
        0
    });
    if dir_end > 0 {
        assert(dir.last() == s[dir_end - 1]);
    }
    if dir_end == 0 && start > 0 {
        assert(!significant(style, s, 0));
    }
    if gap == 1 {
        assert(t[dir_end] == primary_separator(style));
    }
    assert(t[ls] == leaf[0]);
    assert(t[ls + 1] == leaf[1]);
    lemma_same_anchor(style, s, t, dir_end, gap);
    assert forall|i: int| ls <= i < t.len() implies !is_separator(style, #[trigger] t[i]) by {
        assert(t[i] == leaf[i - ls]);
    }
    assert(t[t.len() - 1] == leaf[leaf.len() - 1]);
    assert(leaf[leaf.len() - 1] == ext[ext.len() - 1]);
    if gap == 0 && ls > a {
        assert(t[ls - 1] == s[dir_end - 1]);
    }
    if dir_end > a {
        assert(t[dir_end - 1] == s[dir_end - 1]);
        if dir_end - 1 > a {
            assert(t[dir_end - 2] == s[dir_end - 2]);
        }
        assert(significant(style, t, dir_end - 1));
    }
    lemma_split_at(style, t, dir_end, ls);
    assert(t.subrange(ls, t.len() as int) =~= leaf);
    assert(t.subrange(0, dir_end) =~= dir);
}

/// The stem of a name that is not empty is not empty.
pub proof fn lemma_stem_is_not_empty(name: Seq<char>)
    requires
        name.len() > 0,
    ensures
        stem(name).len() > 0,
{
    let dot = last_dot(name, name.len() as int);
    lemma_last_dot_bounds(name, name.len() as int);
}

/// The last `.` before `hi` lies before `hi`.
pub proof fn lemma_last_dot_bounds(name: Seq<char>, hi: int)
    requires
        0 <= hi <= name.len(),
    ensures
        -1 <= last_dot(name, hi) < hi,
    decreases hi,
{
    if hi > 0 && name[hi - 1] != '.' {
        lemma_last_dot_bounds(name, hi - 1);
    }
}

/// A name with a plain extension behind it has the name as its stem.
pub proof fn lemma_stem_of_renamed(name: Seq<char>, ext: Seq<char>)
    requires
        name.len() > 0,
        plain_extension(ext),
    ensures
        stem(name + ext) == name,
{
    let leaf = name + ext;
    assert(leaf[name.len() as int] == ext[0]);
    assert forall|i: int| name.len() < i < leaf.len() implies leaf[i] != '.' by {
        assert(leaf[i] == ext[i - name.len()]);
    }
    lemma_last_dot_is(leaf, leaf.len() as int, name.len() as int);
    assert(leaf.len() >= 3);
    assert(leaf.subrange(0, name.len() as int) =~= name);
}

/// Naming is the same in both directions, whatever the password: the folder
/// `foo` in a directory is encrypted to `foo.aes` in that directory; that archive
/// is decrypted to the folder `foo` in that directory; and both jobs keep their
/// temporary archive at the same path, `foo.tar` in that directory.
pub proof fn lemma_naming_round_trip(style: PathStyle, folder: Seq<char>)
    requires
        split(style, folder) is Some,
    ensures
        ({
            let parts = split(style, folder)->0;
            let archive = archive_in(style, parts.0, parts.1);
            &&& encrypted_target(style, folder) == Some(archive)
            &&& split(style, archive) == Some((parts.0, parts.1 + ".aes"@))
            &&& stem(parts.1 + ".aes"@) == parts.1
            &&& decrypted_target(style, archive) == Some(join(style, parts.0, parts.1))
            &&& temporary_in(style, directory_of(style, archive), stem(name_of(style, archive)))
                == temporary_in(style, parts.0, parts.1)
        }),
{
    reveal_strlit(".aes");
    let ext = ".aes"@;
    assert(plain_extension(ext));
    let at = lemma_split_parts(style, folder);
    lemma_split_of_renamed(style, folder, ext);
    lemma_stem_of_renamed(name_of(style, folder), ext);
}

} // verus!
