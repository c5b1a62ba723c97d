use vstd::prelude::*;
use vstd::string::*;

verus! {

/// `needle` stands in `hay` at position `at`.
pub open spec fn occurs_at(hay: Seq<char>, needle: Seq<char>, at: int) -> bool {
    &&& 0 <= at
    &&& at + needle.len() <= hay.len()
    &&& hay.subrange(at, at + needle.len()) == needle
}

/// `needle` stands somewhere in `hay` as a contiguous run of characters.
pub open spec fn occurs_in(hay: Seq<char>, needle: Seq<char>) -> bool {
    exists|at: int| occurs_at(hay, needle, at)
}

/// The characters of `s`, in order, as a vector that can be indexed in constant time.
pub fn chars_of(s: &str) -> (out: Vec<char>)
    ensures
        out@ == s@,
{
    let mut out: Vec<char> = Vec::new();
    let n: usize = s.unicode_len();
    let mut i: usize = 0;
    while i < n
        invariant
            n == s@.len(),
            i <= n,
            out@ == s@.subrange(0, i as int),
        decreases n - i,
    {
        let c = s.get_char(i);
        out.push(c);
        i = i + 1;
        assert(out@ =~= s@.subrange(0, i as int));
    }
    assert(s@.subrange(0, n as int) =~= s@);
    out
}

/// `first` followed by `second`.
pub fn concat2(first: &str, second: &str) -> (out: String)
    ensures
        out@ == first@ + second@,
{
    let mut out = String::from_str(first);
    out.append(second);
    out
}

/// `first`, `second` and `third` in a row.
pub fn concat3(first: &str, second: &str, third: &str) -> (out: String)
    ensures
        out@ == first@ + second@ + third@,
{
    let mut out = String::from_str(first);
    out.append(second);
    out.append(third);
    out
}

/// Whether `needle` stands in `hay` at position `at`. It does not where it would
/// reach beyond the end of `hay`.
pub fn matches_at(hay: &Vec<char>, needle: &Vec<char>, at: usize) -> (found: bool)
    ensures
        found == occurs_at(hay@, needle@, at as int),
{
    let m: usize = needle.len();
    if at > hay.len() || m > hay.len() - at {
        return false;
    }
    let mut k: usize = 0;
    while k < m
        invariant
            m == needle.len(),
            at + m <= hay.len(),
            k <= m,
            forall|j: int| 0 <= j < k ==> hay@[at + j] == needle@[j],
        decreases m - k,
    {
        if hay[at + k] != needle[k] {
            proof {
                let window = hay@.subrange(at as int, at + m);
                assert(window[k as int] == hay@[at + k]);
            }
            return false;
        }
        k = k + 1;
    }
    assert(hay@.subrange(at as int, at + m) =~= needle@);
    true
}

/// Whether two strings hold the same characters.
pub fn same_text(a: &str, b: &str) -> (same: bool)
    ensures
        same == (a@ == b@),
{
    let left = chars_of(a);
    let right = chars_of(b);
    if left.len() != right.len() {
        return false;
    }
    let same = matches_at(&left, &right, 0);
    proof {
        assert(left@.subrange(0, right@.len() as int) =~= left@);
    }
    same
}

/// Whether `needle` stands somewhere in `hay`. The empty needle stands in every text.
pub fn contains(hay: &str, needle: &str) -> (found: bool)
    ensures
        found == occurs_in(hay@, needle@),
{
    let text = chars_of(hay);
    let pattern = chars_of(needle);
    if pattern.len() > text.len() {
        assert(forall|at: int| !occurs_at(text@, pattern@, at));
        return false;
    }
    let last: usize = text.len() - pattern.len();
    let mut at: usize = 0;
    while at < last
        invariant
            text@ == hay@,
            pattern@ == needle@,
            last == text.len() - pattern.len(),
            at <= last,
            forall|j: int| 0 <= j < at ==> !occurs_at(text@, pattern@, j),
        decreases last - at,
    {
        if matches_at(&text, &pattern, at) {
            return true;
        }
        at = at + 1;
    }
    let found = matches_at(&text, &pattern, last);
    assert(!found ==> forall|j: int| !occurs_at(text@, pattern@, j));
    found
}

} // verus!
