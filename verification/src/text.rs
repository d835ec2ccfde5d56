//! Character-level helpers shared by the SKU parsers and the report logic:
//! locating a separator, counting occurrences of a character, and
//! ASCII-case-insensitive comparison and substring search.

use vstd::prelude::*;
use vstd::string::StrSliceExecFns;

verus! {

/// Index of the first occurrence of `c` in `s` at or after position `i`,
/// or `s.len()` if there is none.
pub open spec fn char_index_from(s: Seq<char>, c: char, i: int) -> int
    decreases s.len() - i,
{
    if i < 0 || i >= s.len() {
        s.len() as int
    } else if s[i] == c {
        i
    } else {
        char_index_from(s, c, i + 1)
    }
}

/// Number of occurrences of `c` in `s` at or after position `i`.
pub open spec fn count_char_from(s: Seq<char>, c: char, i: int) -> nat
    decreases s.len() - i,
{
    if i < 0 || i >= s.len() {
        0
    } else {
        (if s[i] == c {
            1nat
        } else {
            0nat
        }) + count_char_from(s, c, i + 1)
    }
}

/// Number of occurrences of `c` in `s`.
pub open spec fn count_char(s: Seq<char>, c: char) -> nat {
    count_char_from(s, c, 0)
}

/// A region free of `c` does not change the count that starts at its left end.
pub proof fn lemma_count_skip_region(s: Seq<char>, c: char, i: int, k: int)
    requires
        0 <= i <= k <= s.len(),
        forall|j: int| i <= j < k ==> s[j] != c,
    ensures
        count_char_from(s, c, i) == count_char_from(s, c, k),
    decreases k - i,
{
    if i < k {
        lemma_count_skip_region(s, c, i + 1, k);
    }
}

/// First index of `c` in `s` at or after `from`, or the length if absent.
pub fn find_char(s: &str, from: usize, c: char) -> (r: usize)
    requires
        from <= s@.len(),
    ensures
        from <= r <= s@.len(),
        r == char_index_from(s@, c, from as int),
        forall|j: int| from <= j < r ==> s@[j] != c,
        r < s@.len() ==> s@[r as int] == c,
{
    let n = s.unicode_len();
    let mut i = from;
    while i < n
        invariant
            from <= i <= n,
            n == s@.len(),
            char_index_from(s@, c, from as int) == char_index_from(s@, c, i as int),
            forall|j: int| from <= j < i ==> s@[j] != c,
        decreases n - i,
    {
        if s.get_char(i) == c {
            return i;
        }
        assert(char_index_from(s@, c, i as int) == char_index_from(s@, c, i + 1));
        i = i + 1;
    }
    i
}

/// Code point of `c`, with an ASCII capital letter folded to its small form.
pub open spec fn lower_code(c: char) -> int {
    if 'A' <= c && c <= 'Z' {
        c as int + 32
    } else {
        c as int
    }
}

/// Executable counterpart of [`lower_code`].
pub fn lower_code_exec(c: char) -> (r: u32)
    ensures
        r == lower_code(c),
{
    let v = c as u32;
    if 65 <= v && v <= 90 {
        v + 32
    } else {
        v
    }
}

/// `needle` occurs at offset `k` of `hay`, ignoring ASCII case.
pub open spec fn imatch_at(hay: Seq<char>, needle: Seq<char>, k: int) -> bool {
    &&& 0 <= k
    &&& k + needle.len() <= hay.len()
    &&& forall|i: int| 0 <= i < needle.len() ==> lower_code(hay[k + i]) == lower_code(needle[i])
}

/// `needle` occurs somewhere in `hay`, ignoring ASCII case.
pub open spec fn icontains(hay: Seq<char>, needle: Seq<char>) -> bool {
    exists|k: int| imatch_at(hay, needle, k)
}

/// The two sequences are equal up to ASCII case.
pub open spec fn iequal(a: Seq<char>, b: Seq<char>) -> bool {
    a.len() == b.len() && imatch_at(a, b, 0)
}

/// Whether `needle` occurs at offset `k` of `hay`, ignoring ASCII case.
fn imatch_at_exec(hay: &str, needle: &str, k: usize) -> (r: bool)
    requires
        k + needle@.len() <= hay@.len(),
    ensures
        r == imatch_at(hay@, needle@, k as int),
{
    let n = needle.unicode_len();
    let hl = hay.unicode_len();
    let mut i: usize = 0;
    while i < n
        invariant
            0 <= i <= n,
            n == needle@.len(),
            hl == hay@.len(),
            k + n <= hl,
            forall|j: int| 0 <= j < i ==> lower_code(hay@[k + j]) == lower_code(needle@[j]),
        decreases n - i,
    {
        let hc = lower_code_exec(hay.get_char(k + i));
        let nc = lower_code_exec(needle.get_char(i));
        if hc != nc {
            return false;
        }
        i = i + 1;
    }
    true
}

/// Whether `needle` occurs anywhere in `hay`, ignoring ASCII case.
pub fn icontains_exec(hay: &str, needle: &str) -> (r: bool)
    ensures
        r == icontains(hay@, needle@),
{
    let hn = hay.unicode_len();
    let nn = needle.unicode_len();
    if nn > hn {
        assert(forall|k: int| !imatch_at(hay@, needle@, k));
        return false;
    }
    let mut k: usize = 0;
    while k <= hn - nn
        invariant
            0 <= k <= hn - nn + 1,
            nn <= hn,
            hn == hay@.len(),
            nn == needle@.len(),
            forall|j: int| 0 <= j < k ==> !imatch_at(hay@, needle@, j),
        decreases hn - nn + 1 - k,
    {
        if imatch_at_exec(hay, needle, k) {
            return true;
        }
        k = k + 1;
    }
    assert forall|j: int| !imatch_at(hay@, needle@, j) by {
        if 0 <= j <= hn - nn {
            assert(!imatch_at(hay@, needle@, j));
        }
    }
    false
}

/// The string, or empty where there is none.
pub fn unwrap_or_empty(o: Option<String>) -> (r: String)
    ensures
        o matches Some(s) ==> r@ == s@,
        o is None ==> r@ == Seq::<char>::empty(),
{
    match o {
        Some(s) => s,
        None => String::new(),
    }
}

/// Whether `a` and `b` are equal up to ASCII case.
pub fn iequal_exec(a: &str, b: &str) -> (r: bool)
    ensures
        r == iequal(a@, b@),
{
    let an = a.unicode_len();
    let bn = b.unicode_len();
    if an != bn {
        return false;
    }
    imatch_at_exec(a, b, 0)
}

} // verus!
