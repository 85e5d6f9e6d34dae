//! Whitespace handling for names typed by the operator or read from team files.

use vstd::prelude::*;

verus! {

/// The Unicode `White_Space` characters, the set that `char::is_whitespace` accepts.
pub open spec fn is_white_space(c: char) -> bool {
    let u = c as u32;
    ||| 0x09 <= u <= 0x0D
    ||| u == 0x20
    ||| u == 0x85
    ||| u == 0xA0
    ||| u == 0x1680
    ||| 0x2000 <= u <= 0x200A
    ||| u == 0x2028
    ||| u == 0x2029
    ||| u == 0x202F
    ||| u == 0x205F
    ||| u == 0x3000
}

/// `s` without its leading whitespace.
pub open spec fn trim_front(s: Seq<char>) -> Seq<char>
    decreases s.len(),
{
    if s.len() > 0 && is_white_space(s[0]) {
        trim_front(s.drop_first())
    } else {
        s
    }
}

/// `s` without its trailing whitespace.
pub open spec fn trim_back(s: Seq<char>) -> Seq<char>
    decreases s.len(),
{
    if s.len() > 0 && is_white_space(s.last()) {
        trim_back(s.drop_last())
    } else {
        s
    }
}

/// `s` with leading and trailing whitespace removed, as `str::trim` gives it.
pub open spec fn trimmed(s: Seq<char>) -> Seq<char> {
    trim_back(trim_front(s))
}

/// Whether `c` is whitespace.
pub fn white_space(c: char) -> (r: bool)
    ensures
        r == is_white_space(c),
{
    let u = c as u32;
    (0x09 <= u && u <= 0x0D) || u == 0x20 || u == 0x85 || u == 0xA0 || u == 0x1680 || (0x2000
        <= u && u <= 0x200A) || u == 0x2028 || u == 0x2029 || u == 0x202F || u == 0x205F || u
        == 0x3000
}

/// A copy of `s` with leading and trailing whitespace removed.
pub fn trim(s: &str) -> (r: String)
    ensures
        r@ == trimmed(s@),
{
    let n = s.unicode_len();
    let mut i: usize = 0;
    assert(s@.subrange(0, n as int) =~= s@);
    while i < n && white_space(s.get_char(i))
        invariant
            i <= n,
            n == s@.len(),
            trim_front(s@) == trim_front(s@.subrange(i as int, n as int)),
        decreases n - i,
    {
        assert(s@.subrange(i as int + 1, n as int) =~= s@.subrange(i as int, n as int).drop_first());
        i = i + 1;
    }
    assert(trim_front(s@) == s@.subrange(i as int, n as int));
    let mut j: usize = n;
    while j > i && white_space(s.get_char(j - 1))
        invariant
            i <= j <= n,
            n == s@.len(),
            trim_front(s@) == s@.subrange(i as int, n as int),
            trimmed(s@) == trim_back(s@.subrange(i as int, j as int)),
        decreases j - i,
    {
        assert(s@.subrange(i as int, j - 1) =~= s@.subrange(i as int, j as int).drop_last());
        j = j - 1;
    }
    assert(trimmed(s@) == s@.subrange(i as int, j as int));
    String::from_str(s.substring_char(i, j))
}

/// Whether `s` holds a `/` or a `\`.
pub fn has_path_separator(s: &str) -> (r: bool)
    ensures
        r == (s@.contains('/') || s@.contains('\\')),
{
    let n = s.unicode_len();
    let mut i: usize = 0;
    while i < n
        invariant
            i <= n,
            n == s@.len(),
            forall|k: int| 0 <= k < i ==> s@[k] != '/' && s@[k] != '\\',
        decreases n - i,
    {
        let c = s.get_char(i);
        if c == '/' || c == '\\' {
            return true;
        }
        i = i + 1;
    }
    false
}

} // verus!
