//! String building blocks: decimal rendering of integers and the path
//! arithmetic used to derive the jailed filesystem layout.
//!
//! Paths are plain strings here. The rules are deliberately simple and are
//! fixed by the spec functions in this module: joining inserts a single `/`
//! separator unless one is already present, the file name of a path is the
//! part after the last `/`, and stripping the root removes one leading `/`.

use vstd::prelude::*;

verus! {

/// Relies on `String::push`: appends one character at the end of the string.
pub assume_specification[ String::push ](s: &mut String, ch: char)
    ensures
        final(s)@ == old(s)@ + seq![ch],
;

/// The decimal digit character for a value below ten.
pub open spec fn spec_digit(d: nat) -> char {
    if d == 0 {
        '0'
    } else if d == 1 {
        '1'
    } else if d == 2 {
        '2'
    } else if d == 3 {
        '3'
    } else if d == 4 {
        '4'
    } else if d == 5 {
        '5'
    } else if d == 6 {
        '6'
    } else if d == 7 {
        '7'
    } else if d == 8 {
        '8'
    } else {
        '9'
    }
}

/// The decimal rendering of a natural number, without sign or padding.
pub open spec fn spec_udec(n: nat) -> Seq<char>
    decreases n,
{
    if n < 10 {
        seq![spec_digit(n)]
    } else {
        spec_udec(n / 10) + seq![spec_digit(n % 10)]
    }
}

/// The decimal rendering of an integer: a `-` sign followed by the
/// rendering of the magnitude, or the magnitude alone.
pub open spec fn spec_idec(n: int) -> Seq<char> {
    if n < 0 {
        "-"@ + spec_udec((-n) as nat)
    } else {
        spec_udec(n as nat)
    }
}

fn digit_char(d: u64) -> (c: char)
    requires
        d < 10,
    ensures
        c == spec_digit(d as nat),
{
    match d {
        0 => '0',
        1 => '1',
        2 => '2',
        3 => '3',
        4 => '4',
        5 => '5',
        6 => '6',
        7 => '7',
        8 => '8',
        _ => '9',
    }
}

/// Renders an unsigned number in decimal.
pub fn u64_to_string(n: u64) -> (r: String)
    ensures
        r@ == spec_udec(n as nat),
    decreases n,
{
    if n < 10 {
        let mut s = String::new();
        s.push(digit_char(n));
        s
    } else {
        let mut s = u64_to_string(n / 10);
        s.push(digit_char(n % 10));
        s
    }
}

/// Renders a signed number in decimal.
pub fn i64_to_string(n: i64) -> (r: String)
    ensures
        r@ == spec_idec(n as int),
{
    if n >= 0 {
        u64_to_string(n as u64)
    } else {
        let mag: u64 = if n == i64::MIN {
            9223372036854775808u64
        } else {
            (-n) as u64
        };
        assert(mag as nat == (-(n as int)) as nat);
        let mut s = "-".to_owned();
        let tail = u64_to_string(mag);
        s.append(tail.as_str());
        s
    }
}

/// Whether two string slices hold the same characters.
pub fn str_eq(a: &str, b: &str) -> (r: bool)
    ensures
        r == (a@ == b@),
{
    let x = a.to_owned();
    let y = b.to_owned();
    x == y
}

/// The characters after the last `/`, or the whole string if it has none.
pub open spec fn after_last_slash(p: Seq<char>) -> Seq<char>
    decreases p.len(),
{
    if p.len() == 0 {
        Seq::empty()
    } else if p.last() == '/' {
        Seq::empty()
    } else {
        after_last_slash(p.drop_last()) + seq![p.last()]
    }
}

proof fn lemma_after_last_slash(p: Seq<char>, j: int)
    requires
        0 <= j <= p.len(),
        forall|k: int| j <= k < p.len() ==> p[k] != '/',
        j > 0 ==> p[j - 1] == '/',
    ensures
        after_last_slash(p) == p.subrange(j, p.len() as int),
    decreases p.len(),
{
    if p.len() == j {
        if j == 0 {
            assert(after_last_slash(p) =~= p.subrange(j, p.len() as int));
        } else {
            assert(p.last() == '/');
            assert(after_last_slash(p) =~= p.subrange(j, p.len() as int));
        }
    } else {
        assert(p.last() != '/');
        lemma_after_last_slash(p.drop_last(), j);
        assert(after_last_slash(p) =~= p.subrange(j, p.len() as int));
    }
}

/// The file name of a path: the part after the last `/`. A path whose last
/// component is empty, `.` or `..` has no file name.
pub open spec fn spec_file_name(p: Seq<char>) -> Option<Seq<char>> {
    let t = after_last_slash(p);
    if t.len() == 0 || t == seq!['.'] || t == seq!['.', '.'] {
        None
    } else {
        Some(t)
    }
}

/// Extracts the file name (last path component) of a path.
pub fn file_name(p: &str) -> (r: Option<String>)
    ensures
        (r is Some) == (spec_file_name(p@) is Some),
        r matches Some(name) ==> Some(name@) == spec_file_name(p@),
{
    let len = p.unicode_len();
    let mut j: usize = len;
    while j > 0 && p.get_char(j - 1) != '/'
        invariant
            j <= len,
            len == p@.len(),
            forall|k: int| j <= k < p@.len() ==> p@[k] != '/',
        decreases j,
    {
        j = j - 1;
    }
    proof {
        lemma_after_last_slash(p@, j as int);
    }
    let tail = p.substring_char(j, len);
    let tail_len = len - j;
    if tail_len == 0 {
        None
    } else if tail_len == 1 && tail.get_char(0) == '.' {
        assert(tail@ =~= seq!['.']);
        None
    } else if tail_len == 2 && tail.get_char(0) == '.' && tail.get_char(1) == '.' {
        assert(tail@ =~= seq!['.', '.']);
        None
    } else {
        assert(tail@ != seq!['.'] && tail@ != seq!['.', '.']) by {
            if tail@ == seq!['.'] {
                assert(tail@.len() == 1);
            }
            if tail@ == seq!['.', '.'] {
                assert(tail@.len() == 2);
            }
        }
        Some(tail.to_owned())
    }
}

/// The directory part of a path: everything before the last `/`, or `/`
/// itself when the last `/` is the first character. A path without a `/`
/// has no directory part.
pub open spec fn spec_dir_name(p: Seq<char>) -> Option<Seq<char>> {
    if after_last_slash(p).len() == p.len() {
        None
    } else {
        let cut = p.len() - after_last_slash(p).len() - 1;
        if cut == 0 {
            Some("/"@)
        } else {
            Some(p.take(cut as int))
        }
    }
}

/// Extracts the directory part of a path.
pub fn dir_name(p: &str) -> (r: Option<String>)
    ensures
        (r is Some) == (spec_dir_name(p@) is Some),
        r matches Some(dir) ==> Some(dir@) == spec_dir_name(p@),
{
    let len = p.unicode_len();
    let mut j: usize = len;
    while j > 0 && p.get_char(j - 1) != '/'
        invariant
            j <= len,
            len == p@.len(),
            forall|k: int| j <= k < p@.len() ==> p@[k] != '/',
        decreases j,
    {
        j = j - 1;
    }
    proof {
        lemma_after_last_slash(p@, j as int);
        assert(after_last_slash(p@).len() == len - j);
    }
    if j == 0 {
        None
    } else if j == 1 {
        Some("/".to_owned())
    } else {
        let dir = p.substring_char(0, j - 1);
        assert(dir@ =~= p@.take(j - 1));
        Some(dir.to_owned())
    }
}

/// A path with one leading `/` removed, so that it can be re-rooted by
/// joining it under another directory.
pub open spec fn spec_strip_root(p: Seq<char>) -> Seq<char> {
    if p.len() > 0 && p[0] == '/' {
        p.skip(1)
    } else {
        p
    }
}

/// Removes one leading `/` from a path, if present.
pub fn strip_root(p: &str) -> (r: String)
    ensures
        r@ == spec_strip_root(p@),
{
    let len = p.unicode_len();
    if len > 0 && p.get_char(0) == '/' {
        let rest = p.substring_char(1, len);
        assert(rest@ =~= p@.skip(1));
        rest.to_owned()
    } else {
        p.to_owned()
    }
}

/// Joins a path and a further component: a `/` is put between them unless
/// the left side already ends in one; an empty left side or an absolute
/// right side yields the right side alone.
pub open spec fn spec_path_join(a: Seq<char>, b: Seq<char>) -> Seq<char> {
    if a.len() == 0 {
        b
    } else if b.len() > 0 && b[0] == '/' {
        b
    } else if a.last() == '/' {
        a + b
    } else {
        a + "/"@ + b
    }
}

/// Joins a path and a further component.
pub fn path_join(a: &str, b: &str) -> (r: String)
    ensures
        r@ == spec_path_join(a@, b@),
{
    let alen = a.unicode_len();
    let blen = b.unicode_len();
    if alen == 0 {
        b.to_owned()
    } else if blen > 0 && b.get_char(0) == '/' {
        b.to_owned()
    } else if a.get_char(alen - 1) == '/' {
        let mut s = a.to_owned();
        s.append(b);
        s
    } else {
        let mut s = a.to_owned();
        s.append("/");
        s.append(b);
        s
    }
}

} // verus!
