//! File-name handling on character sequences.

use vstd::prelude::*;

verus! {

/// Index of the last occurrence of `c` in `s`, or `-1` when `s` has none.
pub open spec fn last_index_of(s: Seq<char>, c: char) -> int
    decreases s.len(),
{
    if s.len() == 0 {
        -1
    } else if s.last() == c {
        s.len() - 1
    } else {
        last_index_of(s.drop_last(), c)
    }
}

/// `last_index_of` is the greatest position that holds `c`.
pub proof fn lemma_last_index_of(s: Seq<char>, c: char)
    ensures
        -1 <= last_index_of(s, c) < s.len(),
        last_index_of(s, c) >= 0 ==> s[last_index_of(s, c)] == c,
        forall|j: int| last_index_of(s, c) < j < s.len() ==> s[j] != c,
    decreases s.len(),
{
    if s.len() > 0 && s.last() != c {
        let t = s.drop_last();
        lemma_last_index_of(t, c);
        assert forall|j: int| last_index_of(s, c) < j < s.len() implies s[j] != c by {
            if j < t.len() {
                assert(t[j] == s[j]);
            }
        }
    }
}

/// A position that holds `c` and has no `c` behind it is the last index.
pub proof fn lemma_last_index_unique(s: Seq<char>, c: char, r: int)
    requires
        -1 <= r < s.len(),
        r >= 0 ==> s[r] == c,
        forall|j: int| r < j < s.len() ==> s[j] != c,
    ensures
        last_index_of(s, c) == r,
{
    lemma_last_index_of(s, c);
}

/// Where a file name splits into stem and extension: the position of its last
/// dot, unless the name has no dot or only a leading one; then its length.
pub open spec fn split_point(name: Seq<char>) -> int {
    if last_index_of(name, '.') > 0 {
        last_index_of(name, '.')
    } else {
        name.len() as int
    }
}

/// The file name without its extension.
pub open spec fn stem_of(name: Seq<char>) -> Seq<char> {
    name.subrange(0, split_point(name))
}

/// The part behind the last dot, empty when the name has no extension.
pub open spec fn extension_of(name: Seq<char>) -> Seq<char> {
    if split_point(name) < name.len() {
        name.subrange(split_point(name) + 1, name.len() as int)
    } else {
        Seq::empty()
    }
}

/// A name made of a stem that is not empty, a dot and an extension without
/// a dot splits back into the two.
pub proof fn lemma_split_of_joined(stem: Seq<char>, ext: Seq<char>)
    requires
        stem.len() > 0,
        forall|i: int| 0 <= i < ext.len() ==> ext[i] != '.',
    ensures
        split_point(stem + seq!['.'] + ext) == stem.len(),
        stem_of(stem + seq!['.'] + ext) == stem,
        extension_of(stem + seq!['.'] + ext) == ext,
{
    let name = stem + seq!['.'] + ext;
    lemma_last_index_unique(name, '.', stem.len() as int);
}

/// A name with an extension is its stem, a dot and its extension.
pub proof fn lemma_joined_of_split(name: Seq<char>)
    requires
        split_point(name) < name.len(),
    ensures
        name == stem_of(name) + seq!['.'] + extension_of(name),
{
    lemma_last_index_of(name, '.');
}

/// The characters of a string slice, in order.
pub fn chars_of(s: &str) -> (v: Vec<char>)
    ensures
        v@ == s@,
{
    let n: usize = s.unicode_len();
    let mut v: Vec<char> = Vec::new();
    let mut i: usize = 0;
    while i < n
        invariant
            n == s@.len(),
            i <= n,
            v@ == s@.subrange(0, i as int),
        decreases n - i,
    {
        v.push(s.get_char(i));
        i = i + 1;
    }
    v
}

/// Computes `split_point`.
pub fn find_split(name: &Vec<char>) -> (p: usize)
    ensures
        p == split_point(name@),
        p <= name@.len(),
{
    let mut i: usize = name.len();
    while i > 0
        invariant
            i <= name@.len(),
            forall|j: int| i <= j < name@.len() ==> name@[j] != '.',
        decreases i,
    {
        i = i - 1;
        if name[i] == '.' {
            proof {
                lemma_last_index_unique(name@, '.', i as int);
            }
            if i > 0 {
                return i;
            } else {
                return name.len();
            }
        }
    }
    proof {
        lemma_last_index_unique(name@, '.', -1);
    }
    name.len()
}

/// The stem of a file name, as an owned string.
pub fn file_stem(name: &str) -> (stem: String)
    ensures
        stem@ == stem_of(name@),
{
    let chars = chars_of(name);
    let p: usize = find_split(&chars);
    String::from_str(name.substring_char(0, p))
}

/// The extension of a file name, as an owned string.
pub fn file_extension(name: &str) -> (ext: String)
    ensures
        ext@ == extension_of(name@),
{
    let chars = chars_of(name);
    let n: usize = chars.len();
    let p: usize = find_split(&chars);
    if p < n {
        String::from_str(name.substring_char(p + 1, n))
    } else {
        String::new()
    }
}

/// Whether two string slices hold the same characters.
pub fn same(a: &str, b: &str) -> (r: bool)
    ensures
        r == (a@ == b@),
{
    String::from_str(a) == String::from_str(b)
}

/// `a` followed by `b`.
pub fn join2(a: &str, b: &str) -> (r: String)
    ensures
        r@ == a@ + b@,
{
    String::from_str(a).concat(b)
}

/// `a`, `b` and `c` in a row.
pub fn join3(a: &str, b: &str, c: &str) -> (r: String)
    ensures
        r@ == a@ + b@ + c@,
{
    String::from_str(a).concat(b).concat(c)
}

} // verus!
