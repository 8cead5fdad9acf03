use vstd::prelude::*;

verus! {

/// Whether `c` has the Unicode `White_Space` property, which is what
/// `char::is_whitespace` and `str::trim` go by.
pub open spec fn is_white_space(c: char) -> bool {
    let v = c as u32;
    ||| v == 0x20
    ||| 0x09 <= v <= 0x0d
    ||| v == 0x85
    ||| v == 0xa0
    ||| v == 0x1680
    ||| 0x2000 <= v <= 0x200a
    ||| v == 0x2028
    ||| v == 0x2029
    ||| v == 0x202f
    ||| v == 0x205f
    ||| v == 0x3000
}

/// `s[i..j]` is what is left of `s` once the white space at both ends is cut.
pub open spec fn trim_bounds(s: Seq<char>, i: int, j: int) -> bool {
    &&& 0 <= i <= j <= s.len()
    &&& forall|k: int| 0 <= k < i ==> is_white_space(#[trigger] s[k])
    &&& forall|k: int| j <= k < s.len() ==> is_white_space(#[trigger] s[k])
    &&& i < j ==> !is_white_space(s[i]) && !is_white_space(s[j - 1])
}

/// `t` is `s` with its leading and trailing white space removed.
pub open spec fn is_trim_of(t: Seq<char>, s: Seq<char>) -> bool {
    exists|i: int, j: int| trim_bounds(s, i, j) && t == s.subrange(i, j)
}

/// Whether `c` is white space (see `is_white_space`).
pub fn is_white_space_char(c: char) -> (r: bool)
    ensures
        r == is_white_space(c),
{
    let v = c as u32;
    v == 0x20 || (0x09 <= v && v <= 0x0d) || v == 0x85 || v == 0xa0 || v == 0x1680 || (0x2000
        <= v && v <= 0x200a) || v == 0x2028 || v == 0x2029 || v == 0x202f || v == 0x205f || v
        == 0x3000
}

/// `line` without the white space at its two ends.
pub fn trim(line: &str) -> (t: String)
    ensures
        is_trim_of(t@, line@),
{
    let n = line.unicode_len();
    let mut i: usize = 0;
    while i < n
        invariant
            i <= n,
            n == line@.len(),
            forall|k: int| 0 <= k < i ==> is_white_space(#[trigger] line@[k]),
        ensures
            i <= n,
            forall|k: int| 0 <= k < i ==> is_white_space(#[trigger] line@[k]),
            i < n ==> !is_white_space(line@[i as int]),
        decreases n - i,
    {
        if !is_white_space_char(line.get_char(i)) {
            break;
        }
        i = i + 1;
    }
    let mut j: usize = n;
    while j > i
        invariant
            i <= j <= n,
            n == line@.len(),
            forall|k: int| j <= k < n ==> is_white_space(#[trigger] line@[k]),
        ensures
            i <= j <= n,
            forall|k: int| j <= k < n ==> is_white_space(#[trigger] line@[k]),
            i < j ==> !is_white_space(line@[j - 1]),
        decreases j - i,
    {
        if !is_white_space_char(line.get_char(j - 1)) {
            break;
        }
        j = j - 1;
    }
    let t = line.substring_char(i, j).to_owned();
    assert(trim_bounds(line@, i as int, j as int));
    t
}

/// What `is_trim_of` relates is a function: a string has one trimmed form.
pub proof fn law_trim_unique(s: Seq<char>, t1: Seq<char>, t2: Seq<char>)
    requires
        is_trim_of(t1, s),
        is_trim_of(t2, s),
    ensures
        t1 == t2,
{
    let (i1, j1) = choose|i: int, j: int| trim_bounds(s, i, j) && t1 == s.subrange(i, j);
    let (i2, j2) = choose|i: int, j: int| trim_bounds(s, i, j) && t2 == s.subrange(i, j);
    if i1 < j1 && i2 < j2 {
        assert(!is_white_space(s[i1]));
        assert(!is_white_space(s[i2]));
        assert(i1 == i2);
        assert(!is_white_space(s[j1 - 1]));
        assert(!is_white_space(s[j2 - 1]));
        assert(j1 == j2);
    } else if i1 < j1 {
        assert(!is_white_space(s[i1]));
        assert(i1 < i2 || j2 <= i1);
        assert(false);
    } else if i2 < j2 {
        assert(!is_white_space(s[i2]));
        assert(i2 < i1 || j1 <= i2);
        assert(false);
    } else {
        assert(t1 =~= t2);
    }
}

} // verus!
