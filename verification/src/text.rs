//! Character-level string operations that the launcher's parsers are built from.
use vstd::prelude::*;

verus! {

/// The code points that carry the Unicode `White_Space` property, which is
/// what `char::is_whitespace` tests for.
pub open spec fn is_ws(c: char) -> bool {
    let u = c as u32;
    ||| 0x9 <= u <= 0xD
    ||| u == 0x20
    ||| u == 0x85
    ||| u == 0xA0
    ||| u == 0x1680
    ||| 0x2000 <= u <= 0x200A
    ||| u == 0x2028
    ||| u == 0x2029
    ||| u == 0x202F
    ||| u == 0x205F
    ||| u == 0x3000
}

/// `s` without its leading white space.
pub open spec fn trim_start(s: Seq<char>) -> Seq<char>
    decreases s.len(),
{
    if s.len() > 0 && is_ws(s[0]) {
        trim_start(s.drop_first())
    } else {
        s
    }
}

/// `s` without its trailing white space.
pub open spec fn trim_end(s: Seq<char>) -> Seq<char>
    decreases s.len(),
{
    if s.len() > 0 && is_ws(s.last()) {
        trim_end(s.drop_last())
    } else {
        s
    }
}

/// `s` without leading and trailing white space, as `str::trim` gives it.
pub open spec fn trim(s: Seq<char>) -> Seq<char> {
    trim_end(trim_start(s))
}

/// Whether `c` is white space in the sense of `char::is_whitespace`.
pub fn is_whitespace(c: char) -> (b: bool)
    ensures
        b == is_ws(c),
{
    let u = c as u32;
    (0x9 <= u && u <= 0xD) || u == 0x20 || u == 0x85 || u == 0xA0 || u == 0x1680 || (0x2000 <= u
        && u <= 0x200A) || u == 0x2028 || u == 0x2029 || u == 0x202F || u == 0x205F || u == 0x3000
}

/// `s` with white space removed from both ends.
pub fn trim_str(s: &str) -> (r: &str)
    ensures
        r@ == trim(s@),
{
    let n = s.unicode_len();
    let mut i: usize = 0;
    assert(s@.skip(0) =~= s@);
    while i < n && is_whitespace(s.get_char(i))
        invariant
            0 <= i <= n,
            n == s@.len(),
            trim_start(s@) == trim_start(s@.skip(i as int)),
        decreases n - i,
    {
        assert(s@.skip(i as int).drop_first() =~= s@.skip(i + 1));
        i = i + 1;
    }
    let ghost t = s@.skip(i as int);
    assert(trim_start(t) == t) by {
        if t.len() > 0 {
            assert(t[0] == s@[i as int]);
        }
    }
    let mut j: usize = n;
    while j > i && is_whitespace(s.get_char(j - 1))
        invariant
            i <= j <= n,
            n == s@.len(),
            trim_start(s@) == s@.subrange(i as int, n as int),
            trim_end(s@.subrange(i as int, n as int)) == trim_end(s@.subrange(i as int, j as int)),
        decreases j,
    {
        assert(s@.subrange(i as int, j as int).drop_last() =~= s@.subrange(i as int, j - 1));
        j = j - 1;
    }
    let ghost u = s@.subrange(i as int, j as int);
    assert(trim_end(u) == u) by {
        if u.len() > 0 {
            assert(u.last() == s@[j - 1]);
        }
    }
    assert(t =~= s@.subrange(i as int, n as int));
    s.substring_char(i, j)
}


/// Appends `c` to `s`.
#[verifier::external_body]
pub fn push_char(s: &mut String, c: char)
    ensures
        final(s)@ == old(s)@.push(c),
{
    s.push(c);
}

/// An owned copy of `s`.
pub fn owned(s: &str) -> (r: String)
    ensures
        r@ == s@,
{
    s.to_owned()
}

/// Whether two strings hold the same characters.
pub fn str_eq(a: &str, b: &str) -> (r: bool)
    ensures
        r == (a@ == b@),
{
    let n = a.unicode_len();
    let m = b.unicode_len();
    if n != m {
        return false;
    }
    let mut i: usize = 0;
    while i < n
        invariant
            0 <= i <= n,
            n == a@.len(),
            m == b@.len(),
            n == m,
            a@.take(i as int) == b@.take(i as int),
        decreases n - i,
    {
        if a.get_char(i) != b.get_char(i) {
            return false;
        }
        assert(a@.take(i + 1) =~= a@.take(i as int).push(a@[i as int]));
        assert(b@.take(i + 1) =~= b@.take(i as int).push(b@[i as int]));
        i = i + 1;
    }
    assert(a@ =~= a@.take(n as int));
    assert(b@ =~= b@.take(n as int));
    true
}

/// Whether `suffix` is a suffix of `s`, as `str::ends_with` tests it.
pub open spec fn has_suffix(s: Seq<char>, suffix: Seq<char>) -> bool {
    suffix.len() <= s.len() && s.subrange(s.len() - suffix.len(), s.len() as int) == suffix
}

/// Whether `s` ends with `suffix`.
pub fn ends_with(s: &str, suffix: &str) -> (r: bool)
    ensures
        r == has_suffix(s@, suffix@),
{
    let n = s.unicode_len();
    let m = suffix.unicode_len();
    if m > n {
        return false;
    }
    let tail = s.substring_char(n - m, n);
    str_eq(tail, suffix)
}

/// `s` with every `from` replaced by `to`.
pub open spec fn replaced(s: Seq<char>, from: char, to: char) -> Seq<char> {
    s.map_values(|c: char| if c == from { to } else { c })
}

/// `s` with every occurrence of the character `from` replaced by `to`, as
/// `str::replace` does with one-character patterns.
pub fn replace_char(s: &str, from: char, to: char) -> (r: String)
    ensures
        r@ == replaced(s@, from, to),
{
    let n = s.unicode_len();
    let mut out = String::new();
    let mut i: usize = 0;
    while i < n
        invariant
            0 <= i <= n,
            n == s@.len(),
            out@ == replaced(s@.take(i as int), from, to),
        decreases n - i,
    {
        let c = s.get_char(i);
        if c == from {
            push_char(&mut out, to);
        } else {
            push_char(&mut out, c);
        }
        assert(replaced(s@.take(i + 1), from, to) =~= replaced(s@.take(i as int), from, to).push(
            if c == from { to } else { c },
        ));
        i = i + 1;
    }
    assert(s@.take(n as int) =~= s@);
    out
}

/// `a` followed by `b`.
pub fn concat_str(a: &str, b: &str) -> (r: String)
    ensures
        r@ == a@ + b@,
{
    let mut out = owned(a);
    out.append(b);
    out
}

/// Whether `pat` occurs in `s` at position `i`.
pub open spec fn occurs_at(s: Seq<char>, pat: Seq<char>, i: int) -> bool {
    0 <= i && i + pat.len() <= s.len() && s.subrange(i, i + pat.len()) == pat
}

/// Where the piece that `start` begins ends up beginning once the scan that
/// `str::split` makes reaches the end of `s`: the scan looks for `pat` from
/// position `i` on, takes each occurrence it meets from left to right, and
/// starts a new piece behind it.
pub open spec fn last_piece_start(s: Seq<char>, pat: Seq<char>, i: int, start: int) -> int
    decreases s.len() - i,
{
    if pat.len() == 0 || i < 0 || i + pat.len() > s.len() {
        start
    } else if occurs_at(s, pat, i) {
        last_piece_start(s, pat, i + pat.len(), i + pat.len())
    } else {
        last_piece_start(s, pat, i + 1, start)
    }
}

/// The last piece of `s` split at the non-empty pattern `pat`: what
/// `s.split(pat).last()` yields.
pub open spec fn last_piece(s: Seq<char>, pat: Seq<char>) -> Seq<char> {
    s.skip(last_piece_start(s, pat, 0, 0))
}

/// Where the first piece of `s` split at `pat` ends: the first occurrence
/// of `pat`, or the length of `s` where `pat` does not occur.
pub open spec fn first_piece_end(s: Seq<char>, pat: Seq<char>, i: int) -> int
    decreases s.len() - i,
{
    if pat.len() == 0 || i < 0 || i + pat.len() > s.len() {
        s.len() as int
    } else if occurs_at(s, pat, i) {
        i
    } else {
        first_piece_end(s, pat, i + 1)
    }
}

/// Whether `pat` occurs in `s` at `i` (the executable test).
fn matches_at(s: &str, pat: &str, i: usize) -> (r: bool)
    requires
        i <= s@.len(),
    ensures
        r == occurs_at(s@, pat@, i as int),
{
    let n = s.unicode_len();
    let m = pat.unicode_len();
    if m > n - i {
        return false;
    }
    str_eq(s.substring_char(i, i + m), pat)
}

/// The index at which the last piece of `s` split at `pat` begins.
pub fn last_piece_index(s: &str, pat: &str) -> (r: usize)
    requires
        pat@.len() > 0,
    ensures
        r as int == last_piece_start(s@, pat@, 0, 0),
        r <= s@.len(),
{
    let n = s.unicode_len();
    let m = pat.unicode_len();
    let mut i: usize = 0;
    let mut start: usize = 0;
    while m <= n - i
        invariant
            n == s@.len(),
            m == pat@.len(),
            m > 0,
            i <= n,
            start <= i,
            last_piece_start(s@, pat@, 0, 0) == last_piece_start(s@, pat@, i as int, start as int),
        decreases n - i,
    {
        if matches_at(s, pat, i) {
            i = i + m;
            start = i;
        } else {
            i = i + 1;
        }
    }
    start
}

/// The index at which the first piece of `s` split at `pat` ends.
pub fn first_piece_index(s: &str, pat: &str) -> (r: usize)
    requires
        pat@.len() > 0,
    ensures
        r as int == first_piece_end(s@, pat@, 0),
        r <= s@.len(),
{
    let n = s.unicode_len();
    let m = pat.unicode_len();
    let mut i: usize = 0;
    while m <= n - i
        invariant
            n == s@.len(),
            m == pat@.len(),
            m > 0,
            i <= n,
            first_piece_end(s@, pat@, 0) == first_piece_end(s@, pat@, i as int),
        decreases n - i,
    {
        if matches_at(s, pat, i) {
            return i;
        }
        i = i + 1;
    }
    n
}

/// The number of bytes that `c` takes in UTF-8, as `char::len_utf8` gives it.
pub open spec fn utf8_width(c: char) -> nat {
    let u = c as u32;
    if u <= 0x7F {
        1
    } else if u <= 0x7FF {
        2
    } else if u <= 0xFFFF {
        3
    } else {
        4
    }
}

/// The number of bytes that `s` takes in UTF-8: what `str::len` reports.
pub open spec fn utf8_len(s: Seq<char>) -> nat
    decreases s.len(),
{
    if s.len() == 0 {
        0
    } else {
        utf8_width(s[0]) + utf8_len(s.drop_first())
    }
}

/// The number of bytes that `c` takes in UTF-8.
pub fn char_utf8_width(c: char) -> (w: usize)
    ensures
        w == utf8_width(c),
{
    let u = c as u32;
    if u <= 0x7F {
        1
    } else if u <= 0x7FF {
        2
    } else if u <= 0xFFFF {
        3
    } else {
        4
    }
}

/// What `s.get(n..)` gives: the characters behind the first `n` bytes, or
/// nothing where `n` is past the end of `s` or inside a character.
pub open spec fn from_byte(s: Seq<char>, n: int) -> Option<Seq<char>>
    decreases s.len(),
{
    if n == 0 {
        Some(s)
    } else if n < 0 || s.len() == 0 || utf8_width(s[0]) > n {
        None
    } else {
        from_byte(s.drop_first(), n - utf8_width(s[0]))
    }
}

/// The characters of `s` that follow its first `n` bytes, if `n` is the
/// length of a prefix of `s` in UTF-8.
pub fn suffix_from_byte(s: &str, n: usize) -> (r: Option<&str>)
    ensures
        match r {
            Some(t) => from_byte(s@, n as int) == Some(t@),
            None => from_byte(s@, n as int) is None,
        },
{
    let len = s.unicode_len();
    let mut i: usize = 0;
    let mut left: usize = n;
    assert(s@.skip(0) =~= s@);
    while left > 0 && i < len && char_utf8_width(s.get_char(i)) <= left
        invariant
            len == s@.len(),
            i <= len,
            left <= n,
            from_byte(s@, n as int) == from_byte(s@.skip(i as int), left as int),
        decreases len - i,
    {
        let w = char_utf8_width(s.get_char(i));
        assert(s@.skip(i as int).drop_first() =~= s@.skip(i + 1));
        left = left - w;
        i = i + 1;
    }
    if left == 0 {
        Some(s.substring_char(i, len))
    } else {
        None
    }
}

/// The ASCII lower-case form of `c`, as `char::to_ascii_lowercase` gives it.
pub open spec fn ascii_lower(c: char) -> char {
    if 'A' <= c && c <= 'Z' {
        ((c as u32) + 32) as char
    } else {
        c
    }
}

/// The ASCII lower-case form of `c`.
pub fn to_ascii_lower(c: char) -> (r: char)
    ensures
        r == ascii_lower(c),
{
    if 'A' <= c && c <= 'Z' {
        let b: u8 = (c as u8) + 32;
        b as char
    } else {
        c
    }
}

} // verus!
